use qr_shortener::config::Config;
use qr_shortener::links::{drop_xml_declaration, get_qr, shorten_url, shorten_with, ApiError, Lookup};
use qr_shortener::location::{LocationAction, LocationEvent, LocationFlow, LocationPhase};
use qr_shortener::models::{Link, ShortenRequest};
use qr_shortener::resolve::{ResolveAction, ResolveEvent, ResolveOutcome, ResolvePhase, Resolver};
use qr_shortener::store::MemoryStore;
use qr_shortener::utils::{validate_url, UrlError};

fn config() -> Config {
    Config::from_env(None)
}

fn request(url: &str) -> ShortenRequest {
    ShortenRequest { url: url.to_string() }
}

fn is_id_char(c: char) -> bool {
    c.is_ascii_alphanumeric()
}

fn stored_link(url: &str, id: &str) -> Link {
    let (link, _) = shorten_with(&config(), &request(url), id.to_string(), "t0".to_string()).unwrap();
    link
}

fn resolve(store: &mut MemoryStore, id: &str, ip: &str, at: &str) -> ResolveOutcome {
    let r = Resolver::new(id.to_string(), ip.to_string(), Some("agent".to_string()));
    store.resolve_with(r, at.to_string())
}

#[test]
fn validate_keeps_canonical_url() {
    assert_eq!(validate_url("https://example.com/path"), Ok("https://example.com/path".to_string()));
}

#[test]
fn validate_normalizes_scheme_and_host_case() {
    assert_eq!(validate_url("HTTP://Example.COM"), Ok("http://example.com/".to_string()));
}

#[test]
fn validate_keeps_scheme_and_host() {
    let v = validate_url("https://sub.example.org:8443/a/b?q=1").unwrap();
    assert!(v.starts_with("https://"));
    assert!(v.contains("sub.example.org"));
}

#[test]
fn validate_rejects_garbage() {
    assert_eq!(validate_url("not a url"), Err(UrlError::InvalidUrl));
    assert_eq!(validate_url(""), Err(UrlError::InvalidUrl));
    assert_eq!(validate_url("http://"), Err(UrlError::InvalidUrl));
}

#[test]
fn validate_rejects_other_schemes() {
    assert_eq!(validate_url("ftp://example.com/file"), Err(UrlError::SchemeNotAllowed));
    assert_eq!(validate_url("mailto:someone@example.com"), Err(UrlError::SchemeNotAllowed));
    assert_eq!(validate_url("file:///etc/hosts"), Err(UrlError::SchemeNotAllowed));
}

#[test]
fn url_error_messages() {
    assert_eq!(UrlError::InvalidUrl.message(), "URL inválida");
    assert_eq!(UrlError::SchemeNotAllowed.message(), "Solo se permiten URLs con http:// o https://");
    assert_eq!(UrlError::MissingHost.message(), "El URL debe tener un dominio válido");
}

#[test]
fn config_default_and_given() {
    assert_eq!(Config::from_env(None).base_url, "http://localhost:3000");
    let c = Config::from_env(Some("https://s.example".to_string()));
    assert_eq!(c.base_url, "https://s.example");
    assert_eq!(c.short_url("abc"), "https://s.example/r/abc");
}

#[test]
fn shorten_with_builds_link_and_answer() {
    let (link, resp) =
        shorten_with(&config(), &request("https://example.com/path"), "abcdEFGH".to_string(), "t0".to_string())
            .unwrap();
    assert_eq!(link.id, "abcdEFGH");
    assert_eq!(link.original_url, "https://example.com/path");
    assert_eq!(link.scans, 0);
    assert_eq!(link.created_at, "t0");
    assert_eq!(resp.id, "abcdEFGH");
    assert_eq!(resp.short_url, "http://localhost:3000/r/abcdEFGH");
    assert!(resp.qr_svg.starts_with("<svg xmlns=\"http://www.w3.org/2000/svg\""));
    assert!(resp.qr_svg.ends_with("\"/></svg>"));
}

#[test]
fn shorten_with_stores_normalized_url() {
    let (link, _) = shorten_with(&config(), &request("HTTPS://EXAMPLE.com"), "x".to_string(), "t".to_string()).unwrap();
    assert_eq!(link.original_url, "https://example.com/");
}

#[test]
fn shorten_example_request() {
    let (link, resp) = shorten_url(&config(), &request("https://example.com/path")).unwrap();
    assert_eq!(resp.id.chars().count(), 8);
    assert!(resp.id.chars().all(is_id_char));
    assert_eq!(link.id, resp.id);
    assert!(resp.short_url.ends_with(&format!("/r/{}", resp.id)));
    assert!(!resp.qr_svg.is_empty());
    assert!(resp.qr_svg.contains("<svg"));
    assert!(resp.qr_svg.starts_with("<svg"));
    assert_eq!(resp.short_url, format!("http://localhost:3000/r/{}", resp.id));
    assert_eq!(link.original_url, "https://example.com/path");
    assert_eq!(link.scans, 0);
}

#[test]
fn shorten_invalid_url_is_bad_request() {
    let err = shorten_url(&config(), &request("not a url")).err().unwrap();
    assert_eq!(err, ApiError::Invalid(UrlError::InvalidUrl));
    assert_eq!(err.status(), 400);
    assert_eq!(err.to_response().error, "URL inválida");
}

#[test]
fn shorten_disallowed_scheme_is_bad_request() {
    let err = shorten_url(&config(), &request("ftp://example.com")).err().unwrap();
    assert_eq!(err, ApiError::Invalid(UrlError::SchemeNotAllowed));
    assert_eq!(err.status(), 400);
}

#[test]
fn shorten_too_long_for_a_qr_code() {
    let long_id = "a".repeat(8000);
    let err = shorten_with(&config(), &request("https://example.com/"), long_id, "t".to_string()).err().unwrap();
    assert_eq!(err, ApiError::Render);
    assert_eq!(err.status(), 500);
}

#[test]
fn api_error_statuses_and_messages() {
    assert_eq!(ApiError::NotFound.status(), 404);
    assert_eq!(ApiError::Storage.status(), 500);
    assert_eq!(ApiError::LocationNotSaved.status(), 500);
    assert_eq!(ApiError::NotFound.to_response().error, "QR no encontrado");
    assert_eq!(ApiError::Storage.to_response().error, "Error interno del servidor");
    assert_eq!(ApiError::LocationNotSaved.to_response().error, "Error al guardar la ubicación");
    assert_eq!(ApiError::Render.to_response().error, "Error al generar QR");
}

#[test]
fn get_qr_outcomes() {
    assert_eq!(get_qr(&config(), "abc", Lookup::Failed).err(), Some(ApiError::Storage));
    assert_eq!(get_qr(&config(), "abc", Lookup::Absent).err(), Some(ApiError::NotFound));
    let link = stored_link("https://example.com/path", "abc");
    let q = get_qr(&config(), "abc", Lookup::Found(link)).unwrap();
    assert_eq!(q.id, "abc");
    assert_eq!(q.original_url, "https://example.com/path");
    assert_eq!(q.scans, 0);
    assert_eq!(q.created_at, "t0");
    assert!(q.qr_svg.starts_with("<svg"));
}

#[test]
fn resolver_defaults_user_agent() {
    let r = Resolver::new("a".to_string(), "1.2.3.4".to_string(), None);
    assert_eq!(r.user_agent, "Unknown");
    assert!(matches!(r.phase, ResolvePhase::Start));
}

#[test]
fn resolver_steps_through_a_found_link() {
    let mut r = Resolver::new("abc".to_string(), "10.0.0.1".to_string(), Some("curl".to_string()));
    assert!(matches!(r.step_with(ResolveEvent::Begin, "t".to_string()), ResolveAction::LookUp(ref id) if id == "abc"));
    match r.step_with(ResolveEvent::LinkFound("https://example.com/".to_string()), "t1".to_string()) {
        ResolveAction::RecordScan(scan) => {
            assert_eq!(scan.link_id, "abc");
            assert_eq!(scan.ip_address, "10.0.0.1");
            assert_eq!(scan.user_agent, "curl");
            assert_eq!(scan.scanned_at, "t1");
        }
        other => panic!("unexpected {:?}", other),
    }
    match r.step(ResolveEvent::ScanRecorded) {
        ResolveAction::Respond(o) => {
            assert_eq!(o.status(), 308);
            assert!(matches!(o, ResolveOutcome::Redirect(ref u) if u == "https://example.com/"));
        }
        other => panic!("unexpected {:?}", other),
    }
}

#[test]
fn resolver_failures() {
    let mut r = Resolver::new("abc".to_string(), "ip".to_string(), None);
    r.step(ResolveEvent::Begin);
    assert!(matches!(r.step(ResolveEvent::LookupFailed), ResolveAction::Respond(ResolveOutcome::StorageFailure)));
    let mut r = Resolver::new("abc".to_string(), "ip".to_string(), None);
    r.step(ResolveEvent::Begin);
    r.step(ResolveEvent::LinkFound("https://e.com/".to_string()));
    match r.step(ResolveEvent::ScanRecordFailed) {
        ResolveAction::Respond(o) => assert_eq!(o.status(), 500),
        other => panic!("unexpected {:?}", other),
    }
    let mut r = Resolver::new("abc".to_string(), "ip".to_string(), None);
    assert!(matches!(r.step(ResolveEvent::ScanRecorded), ResolveAction::Respond(ResolveOutcome::StorageFailure)));
}

#[test]
fn shorten_then_resolve_redirects_and_counts() {
    let mut store = MemoryStore::new();
    let link = stored_link("https://example.com/path", "abcdEFGH");
    store.insert_link(link).unwrap();
    match resolve(&mut store, "abcdEFGH", "1.1.1.1", "t1") {
        ResolveOutcome::Redirect(u) => assert_eq!(u, "https://example.com/path"),
        other => panic!("unexpected {:?}", other),
    }
    assert_eq!(store.scans.len(), 1);
    assert_eq!(store.scans[0].link_id, "abcdEFGH");
    assert_eq!(store.scans[0].ip_address, "1.1.1.1");
    assert_eq!(store.scans[0].scanned_at, "t1");
    let q = get_qr(&config(), "abcdEFGH", Lookup::Found(store.links[0].clone())).unwrap();
    assert_eq!(q.scans, 1);
}

#[test]
fn shorten_then_resolve_normalized() {
    let mut store = MemoryStore::new();
    store.insert_link(stored_link("HTTPS://Example.com", "n1")).unwrap();
    match resolve(&mut store, "n1", "ip", "t") {
        ResolveOutcome::Redirect(u) => assert_eq!(u, "https://example.com/"),
        other => panic!("unexpected {:?}", other),
    }
}

#[test]
fn unknown_id_is_not_found_and_logs_nothing() {
    let mut store = MemoryStore::new();
    store.insert_link(stored_link("https://example.com/", "known")).unwrap();
    let outcome = resolve(&mut store, "missing", "ip", "t");
    assert!(matches!(outcome, ResolveOutcome::NotFound));
    assert_eq!(outcome.status(), 404);
    assert!(store.scans.is_empty());
    assert_eq!(store.links[0].scans, 0);
}

#[test]
fn many_resolutions_log_one_scan_each() {
    let mut store = MemoryStore::new();
    store.insert_link(stored_link("https://example.com/", "k")).unwrap();
    store.insert_link(stored_link("https://other.example/", "other")).unwrap();
    for n in 0..5 {
        let outcome = resolve(&mut store, "k", &format!("10.0.0.{}", n), &format!("t{}", n));
        assert!(matches!(outcome, ResolveOutcome::Redirect(_)));
    }
    assert_eq!(store.scans.len(), 5);
    assert!(store.scans.iter().all(|s| s.link_id == "k"));
    assert_eq!(store.scans[3].ip_address, "10.0.0.3");
    assert_eq!(store.links[0].scans, 5);
    assert_eq!(store.links[1].scans, 0);
}

#[test]
fn counter_holds_at_its_largest_value() {
    let mut store = MemoryStore::new();
    let mut link = stored_link("https://example.com/", "k");
    link.scans = i32::MAX;
    store.insert_link(link).unwrap();
    resolve(&mut store, "k", "ip", "t");
    assert_eq!(store.links[0].scans, i32::MAX);
    assert_eq!(store.scans.len(), 1);
}

#[test]
fn duplicate_id_is_a_conflict() {
    let mut store = MemoryStore::new();
    store.insert_link(stored_link("https://old.example/", "dup")).unwrap();
    let err = store.insert_link(stored_link("https://new.example/", "dup")).err().unwrap();
    assert_eq!(err, ApiError::Conflict);
    assert_eq!(err.status(), 409);
    assert_eq!(err.to_response().error, "El identificador ya existe");
    assert_eq!(store.links.len(), 1);
    match resolve(&mut store, "dup", "ip", "t") {
        ResolveOutcome::Redirect(u) => assert_eq!(u, "https://old.example/"),
        other => panic!("unexpected {:?}", other),
    }
}

#[test]
fn location_registered() {
    let mut f = LocationFlow::new("abc".to_string());
    assert!(matches!(f.step(LocationEvent::Begin), LocationAction::CountLinks(ref id) if id == "abc"));
    match f.step(LocationEvent::Counted(1)) {
        LocationAction::Save { link_id, created_at } => {
            assert_eq!(link_id, "abc");
            assert!(!created_at.is_empty());
        }
        other => panic!("unexpected {:?}", other),
    }
    match f.step(LocationEvent::Saved(42)) {
        LocationAction::Respond(Ok(resp)) => {
            assert_eq!(resp.message, "Ubicación registrada para QR abc");
            assert_eq!(resp.location_id, 42);
        }
        other => panic!("unexpected {:?}", other),
    }
    assert_eq!(f.phase, LocationPhase::Finished);
}

#[test]
fn location_unknown_link() {
    let mut f = LocationFlow::new("abc".to_string());
    f.step(LocationEvent::Begin);
    assert!(matches!(f.step(LocationEvent::Counted(0)), LocationAction::Respond(Err(ApiError::NotFound))));
}

#[test]
fn location_storage_failures() {
    let mut f = LocationFlow::new("abc".to_string());
    f.step(LocationEvent::Begin);
    assert!(matches!(f.step(LocationEvent::CountFailed), LocationAction::Respond(Err(ApiError::Storage))));
    let mut f = LocationFlow::new("abc".to_string());
    f.step(LocationEvent::Begin);
    f.step(LocationEvent::Counted(2));
    assert!(matches!(f.step(LocationEvent::SaveFailed), LocationAction::Respond(Err(ApiError::LocationNotSaved))));
}

#[test]
fn generated_ids_are_alphanumeric() {
    for _ in 0..50 {
        let (link, _) = shorten_url(&config(), &request("https://example.com/")).unwrap();
        assert_eq!(link.id.len(), 8);
        assert!(link.id.chars().all(|c| c.is_ascii_alphanumeric()));
    }
}

#[test]
fn xml_declaration_is_dropped() {
    assert_eq!(drop_xml_declaration("<?xml version=\"1.0\" standalone=\"yes\"?><svg/>"), "<svg/>");
    assert_eq!(drop_xml_declaration("<svg/>"), "<svg/>");
    assert_eq!(drop_xml_declaration(""), "");
    assert_eq!(drop_xml_declaration("<?xml version=\"1.0\"?><svg/>"), "<?xml version=\"1.0\"?><svg/>");
}

#[test]
fn location_saved_at_given_time() {
    let mut f = LocationFlow::new("abc".to_string());
    f.step_with(LocationEvent::Begin, "t0".to_string());
    match f.step_with(LocationEvent::Counted(3), "2024-01-01T00:00:00-05:00".to_string()) {
        LocationAction::Save { link_id, created_at } => {
            assert_eq!(link_id, "abc");
            assert_eq!(created_at, "2024-01-01T00:00:00-05:00");
        }
        other => panic!("unexpected {:?}", other),
    }
    assert_eq!(f.phase, LocationPhase::Saving);
}
