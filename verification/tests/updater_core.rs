//! Text helpers, version store, manifest decoding, trigger decisions and
//! the broadcast registry, exercised on concrete values.

use extension_updater::hub::{broadcast_reload, ClientRegistry};
use extension_updater::manifest::{cache_busted_url, decode_manifest, update_available};
use extension_updater::text::{str_contains, trim_str, u64_to_dec};
use extension_updater::trigger::handle_trigger_request;
use extension_updater::version_store::{get_local_version, marker_content};
use extension_updater::UpdateError;

#[test]
fn trim_removes_ascii_whitespace() {
    assert_eq!(trim_str("  1.0\t\r\n"), "1.0");
    assert_eq!(trim_str("1.0"), "1.0");
    assert_eq!(trim_str("   "), "");
    assert_eq!(trim_str(""), "");
}

#[test]
fn trim_removes_unicode_whitespace() {
    assert_eq!(trim_str("\u{3000}2.0\u{00a0}"), "2.0");
    assert_eq!(trim_str("\u{2003}\u{2028}x\u{205f}"), "x");
    // Interior whitespace stays.
    assert_eq!(trim_str(" a b "), "a b");
}

#[test]
fn trim_matches_std() {
    for s in ["  1.0 ", "\tv2\u{a0}", "no-space", " \u{1680}\u{2006} ", "a "] {
        assert_eq!(trim_str(s), s.trim());
    }
}

#[test]
fn contains_finds_substrings() {
    assert!(str_contains("GET /trigger-update HTTP/1.1", "/trigger-update"));
    assert!(!str_contains("GET /other HTTP/1.1", "/trigger-update"));
    assert!(str_contains("abc", ""));
    assert!(!str_contains("ab", "abc"));
    assert!(str_contains("aaab", "aab"));
}

#[test]
fn decimal_rendering_is_exact() {
    assert_eq!(u64_to_dec(0), "0");
    assert_eq!(u64_to_dec(7), "7");
    assert_eq!(u64_to_dec(1234567890), "1234567890");
    assert_eq!(u64_to_dec(u64::MAX), "18446744073709551615");
}

#[test]
fn cache_buster_appends_query() {
    assert_eq!(
        cache_busted_url("http://x/archive.zip", 42),
        "http://x/archive.zip?cb=42"
    );
    assert_eq!(
        cache_busted_url("http://x/archive.zip?v=1", 42),
        "http://x/archive.zip?v=1&cb=42"
    );
}

#[test]
fn local_version_reads_trimmed_or_empty() {
    assert_eq!(get_local_version(None), "");
    assert_eq!(get_local_version(Some("  1.0\n".to_string())), "1.0");
    assert_eq!(get_local_version(Some(String::new())), "");
}

#[test]
fn marker_round_trip_returns_trimmed_version() {
    let manifest =
        decode_manifest("{\"version\":\"2.0\",\"download_url\":\"http://x/a.zip\"}").unwrap();
    let written = marker_content(&manifest);
    assert_eq!(written, "2.0");
    assert_eq!(get_local_version(Some(written)), "2.0");
}

#[test]
fn decode_accepts_a_full_manifest() {
    let m = decode_manifest(
        "{\"version\":\" 2.0 \",\"download_url\":\"http://x/archive.zip\",\"extra\":1}",
    )
    .unwrap();
    assert_eq!(m.version, " 2.0 ");
    assert_eq!(m.download_url, "http://x/archive.zip");
}

#[test]
fn decode_rejects_bad_documents() {
    for doc in [
        "not json at all",
        "[1,2,3]",
        "{\"version\":\"2.0\"}",
        "{\"download_url\":\"http://x\"}",
        "{\"version\":2,\"download_url\":\"http://x\"}",
        "{\"version\":\"\",\"download_url\":\"http://x\"}",
        "{\"version\":\"   \",\"download_url\":\"http://x\"}",
        "{\"version\":\"\\t\\n\",\"download_url\":\"http://x\"}",
        "{\"version\":\"2.0\",\"download_url\":\"\"}",
    ] {
        assert_eq!(decode_manifest(doc).unwrap_err(), UpdateError::DecodeError);
    }
}

#[test]
fn version_difference_is_textual() {
    assert!(!update_available("1.0", "1.0"));
    assert!(update_available("2.0", "1.0"));
    // No semantic ordering: an "older" remote version still differs.
    assert!(update_available("0.9", "1.0"));
    // Trimming happens on both sides.
    assert!(!update_available(" 1.0\n", "1.0 "));
    assert!(update_available("1.0.0", "1.0"));
    // A first install: anything non-empty differs from the empty marker.
    assert!(update_available("1.0", ""));
}

#[test]
fn trigger_route_is_recognized() {
    let d = handle_trigger_request("POST /trigger-update HTTP/1.1\r\nHost: localhost\r\n\r\n");
    assert!(d.request_update);
    assert!(d.broadcast);
    assert_eq!(
        d.response,
        "HTTP/1.1 200 OK\r\nContent-Type: application/json\r\nAccess-Control-Allow-Origin: *\r\n\r\n{\"status\":\"update_triggered\"}"
    );
}

#[test]
fn other_requests_get_not_found() {
    let d = handle_trigger_request("GET /something-else HTTP/1.1\r\n\r\n");
    assert!(!d.request_update);
    assert!(!d.broadcast);
    assert_eq!(d.response, "HTTP/1.1 404 Not Found\r\n\r\n404 Not Found");
    // The route must appear as a path token: a bare mention without the
    // surrounding spaces is not the trigger route.
    let d = handle_trigger_request("GET /trigger-updates HTTP/1.1");
    assert!(!d.request_update);
    let d = handle_trigger_request("trigger-update");
    assert!(!d.request_update);
}

#[test]
fn registry_registers_in_order() {
    let mut reg = ClientRegistry::new();
    let a = reg.register();
    let b = reg.register();
    let c = reg.register();
    assert_ne!(a, b);
    assert_ne!(b, c);
    assert_eq!(reg.len(), 3);
    assert_eq!(reg.client_ids(), vec![a, b, c]);
}

#[test]
fn broadcast_targets_and_payload() {
    let mut reg = ClientRegistry::new();
    let (targets, payload) = broadcast_reload(&reg);
    assert!(targets.is_empty());
    assert_eq!(payload, "{\"action\":\"RELOAD\"}");
    let a = reg.register();
    let (targets, _) = broadcast_reload(&reg);
    assert_eq!(targets, vec![a]);
}

#[test]
fn broadcast_twice_with_live_clients_changes_nothing() {
    let mut reg = ClientRegistry::new();
    let a = reg.register();
    let b = reg.register();
    let before = reg.client_ids();
    // Two broadcasts in a row, every send succeeding.
    reg.prune(&vec![false, false]);
    assert_eq!(reg.client_ids(), before);
    reg.prune(&vec![false, false]);
    assert_eq!(reg.client_ids(), vec![a, b]);
    assert_eq!(reg.len(), 2);
}

#[test]
fn dead_client_is_pruned_after_one_broadcast() {
    let mut reg = ClientRegistry::new();
    let a = reg.register();
    let b = reg.register();
    let c = reg.register();
    // The middle client's connection is severed: its send fails once.
    reg.prune(&vec![false, true, false]);
    assert_eq!(reg.client_ids(), vec![a, c]);
    // The next broadcast reaches the remaining clients untroubled.
    reg.prune(&vec![false, false]);
    assert_eq!(reg.client_ids(), vec![a, c]);
}

#[test]
fn handles_stay_fresh_across_pruning() {
    let mut reg = ClientRegistry::new();
    let a = reg.register();
    let b = reg.register();
    reg.prune(&vec![true, false]);
    assert_eq!(reg.client_ids(), vec![b]);
    let c = reg.register();
    assert_ne!(c, a);
    assert_ne!(c, b);
    assert_eq!(reg.client_ids(), vec![b, c]);
}

#[test]
fn no_op_broadcast_on_empty_registry() {
    let mut reg = ClientRegistry::new();
    reg.prune(&Vec::new());
    assert_eq!(reg.len(), 0);
}
