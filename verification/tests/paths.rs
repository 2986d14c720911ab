use cloudflare::path::{record_path_of, records_path_of, trim_end, trim_start};
use cloudflare::{compose, Version};

#[test]
fn composition_is_the_same_with_and_without_boundary_slashes() {
    let with = compose("https://api.example.com/", Version::V4, "/zones/1/dns_records");
    let without = compose("https://api.example.com", Version::V4, "zones/1/dns_records");
    assert_eq!(with, "https://api.example.com/client/v4/zones/1/dns_records");
    assert_eq!(without, "https://api.example.com/client/v4/zones/1/dns_records");
    assert_eq!(with, without);
}

#[test]
fn composition_joins_with_one_slash_however_many_there_were() {
    let many = compose("https://api.example.com///", Version::V2, "///zones");
    assert_eq!(many, "https://api.example.com/client/v2/zones");
}

#[test]
fn composition_keeps_slashes_inside_the_parts() {
    let address = compose("https://h/a//b/", Version::V1, "/x//y/");
    assert_eq!(address, "https://h/a//b/client/v1/x//y/");
}

#[test]
fn composition_of_empty_parts() {
    assert_eq!(compose("", Version::V3, ""), "/client/v3/");
    assert_eq!(compose("/", Version::V3, "/"), "/client/v3/");
    assert_eq!(compose("//", Version::V3, "p"), "/client/v3/p");
}

#[test]
fn composition_uses_the_tag_of_each_version() {
    assert_eq!(compose("b", Version::V1, "p"), "b/client/v1/p");
    assert_eq!(compose("b", Version::V2, "p"), "b/client/v2/p");
    assert_eq!(compose("b", Version::V3, "p"), "b/client/v3/p");
    assert_eq!(compose("b", Version::V4, "p"), "b/client/v4/p");
}

#[test]
fn version_tags() {
    assert_eq!(Version::V1.to_string(), "v1");
    assert_eq!(Version::V2.to_string(), "v2");
    assert_eq!(Version::V3.to_string(), "v3");
    assert_eq!(Version::V4.to_string(), "v4");
}

#[test]
fn trimming_at_the_end() {
    assert_eq!(trim_end(""), "");
    assert_eq!(trim_end("/"), "");
    assert_eq!(trim_end("////"), "");
    assert_eq!(trim_end("a"), "a");
    assert_eq!(trim_end("a/"), "a");
    assert_eq!(trim_end("a//"), "a");
    assert_eq!(trim_end("/a/b/"), "/a/b");
    assert_eq!(trim_end("/a"), "/a");
    assert_eq!(trim_end("a/ "), "a/ ");
}

#[test]
fn trimming_at_the_start() {
    assert_eq!(trim_start(""), "");
    assert_eq!(trim_start("/"), "");
    assert_eq!(trim_start("////"), "");
    assert_eq!(trim_start("a"), "a");
    assert_eq!(trim_start("/a"), "a");
    assert_eq!(trim_start("//a"), "a");
    assert_eq!(trim_start("/a/b/"), "a/b/");
    assert_eq!(trim_start("a/"), "a/");
    assert_eq!(trim_start(" /a"), " /a");
}

#[test]
fn trimming_counts_characters_not_bytes() {
    assert_eq!(trim_end("zürich/é//"), "zürich/é");
    assert_eq!(trim_start("//日本/語"), "日本/語");
    assert_eq!(compose("https://é/", Version::V4, "/ü"), "https://é/client/v4/ü");
}

#[test]
fn resource_paths() {
    assert_eq!(records_path_of("z1"), "zones/z1/dns_records");
    assert_eq!(record_path_of("z1", "r1"), "zones/z1/dns_records/r1");
    assert_eq!(records_path_of(""), "zones//dns_records");
    assert_eq!(record_path_of("", ""), "zones//dns_records/");
}
