use open_download_manager::engine::meta_path_for;
use open_download_manager::hashing::hash_url;

#[test]
fn hashes_url_to_lowercase_hex_sha256() {
    assert_eq!(
        hash_url("https://ash-speed.hetzner.com/1GB.bin"),
        "d8f4e9d60990e612b91769cf79c30447e3d6b1d3c28e2d6cc8ea76ed3e7e0243"
    );
}

#[test]
fn hashes_short_string() {
    assert_eq!(
        hash_url("abc"),
        "ba7816bf8f01cfea414140de5dae2223b00361a396177a9cb410ff61f20015ad"
    );
}

#[test]
fn id_is_64_lowercase_hex_chars() {
    let id = hash_url("https://proof.ovh.net/files/100Mb.dat");
    assert_eq!(id.len(), 64);
    assert!(id.chars().all(|c| c.is_ascii_hexdigit() && !c.is_ascii_uppercase()));
}

#[test]
fn id_is_stable_across_calls() {
    let a = hash_url("https://ash-speed.hetzner.com/1GB.bin");
    let b = hash_url("https://ash-speed.hetzner.com/1GB.bin");
    assert_eq!(a, b);
}

#[test]
fn meta_path_embeds_the_id() {
    let url = "https://ash-speed.hetzner.com/1GB.bin";
    let id = hash_url(url);
    assert_eq!(meta_path_for(url), format!("downloads/meta/{}.meta.json", id));
}
