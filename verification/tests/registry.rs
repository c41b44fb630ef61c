use smf::error::push_decimal;
use smf::query::check_no_nul;
use smf::query::PropLookup;
use smf::get_state;
use smf::my_fmri;
use smf::PropGetOne;
use smf::Property;
use smf::AStringProp;
use smf::BoolProp;
use smf::PropTypeTag;
use smf::PropertyValue;
use smf::SCFHandle;
use smf::SMFError;
use smf::SMFErrorKind;

fn lookup_one_astring(value: &str) -> PropLookup {
    PropLookup {
        bind_ok: true,
        resolved: true,
        registry_failure: String::new(),
        count: 1,
        tag: PropTypeTag::AString,
        astring: value.to_string(),
    }
}

#[test]
fn release_twice_runs_teardown_once() {
    let mut hdl = SCFHandle::open(true, String::new()).unwrap();
    let first = hdl.close();
    let second = hdl.close();
    assert!(first);
    assert!(!second);
}

#[test]
fn open_with_failed_bind_reports_registry_error() {
    let r = SCFHandle::open(false, "repository server unavailable".to_string());
    let e = r.err().unwrap();
    assert_eq!(e.kind, SMFErrorKind::Registry);
    assert_eq!(e.smf_error, "repository server unavailable");
}

#[test]
fn resolve_sentinel_means_not_associated() {
    let r = my_fmri(4096, true, String::new(), -1, String::new());
    let e = r.err().unwrap();
    assert_eq!(e.kind, SMFErrorKind::NotAssociated);
    assert_eq!(e.smf_error, "process not associated with a service");
}

#[test]
fn resolve_bind_failure_means_registry_error() {
    let r = my_fmri(4096, false, "connection refused".to_string(), 0, String::new());
    let e = r.err().unwrap();
    assert_eq!(e.kind, SMFErrorKind::Registry);
    assert_eq!(e.smf_error, "connection refused");
    assert_ne!(e.kind, SMFErrorKind::NotAssociated);
}

#[test]
fn resolve_bad_limit_means_registry_error() {
    let r = my_fmri(0, true, "limit query failed".to_string(), 0, String::new());
    let e = r.err().unwrap();
    assert_eq!(e.kind, SMFErrorKind::Registry);
    let r = my_fmri(-3, true, "limit query failed".to_string(), 0, String::new());
    assert_eq!(r.err().unwrap().kind, SMFErrorKind::Registry);
}

#[test]
fn resolve_success_returns_written_fmri() {
    let fmri = "svc:/network/ssh:default";
    let r = my_fmri(4096, true, String::new(), fmri.len() as i64, fmri.to_string());
    assert_eq!(r.unwrap(), fmri);
}

#[test]
fn state_rejects_embedded_nul_before_any_lookup() {
    // A lookup outcome is supplied, yet the embedded nul alone decides.
    let r = get_state("a\u{0}b", Some("online".to_string()), String::new());
    let e = r.err().unwrap();
    assert_eq!(e.kind, SMFErrorKind::InvalidArgument);
    assert_eq!(e.smf_error, "invalid string: nul byte found in provided data");
}

#[test]
fn state_passes_reported_state_through() {
    let states = ["uninitialized", "maintenance", "offline", "disabled", "online", "degraded"];
    for state in states.iter() {
        let r = get_state(
            "svc:/system/filesystem/local:default",
            Some(state.to_string()),
            String::new(),
        );
        assert_eq!(r.unwrap(), *state);
    }
}

#[test]
fn state_of_missing_service_is_registry_error() {
    let r = get_state("svc:/no/such/service:default", None, "entity not found".to_string());
    let e = r.err().unwrap();
    assert_eq!(e.kind, SMFErrorKind::Registry);
    assert_eq!(e.smf_error, "entity not found");
}

#[test]
fn state_after_resolution_never_not_associated() {
    let fmri = "svc:/network/ssh:default";
    let resolved = my_fmri(4096, true, String::new(), fmri.len() as i64, fmri.to_string())
        .unwrap();
    // Found or not, the state query after a resolution can only fail
    // with the registry kind.
    let ok = get_state(&resolved, Some("online".to_string()), String::new());
    assert_eq!(ok.unwrap(), "online");
    let missing = get_state(&resolved, None, "entity not found".to_string());
    assert_eq!(missing.err().unwrap().kind, SMFErrorKind::Registry);
}

fn astring_of(r: Result<PropertyValue, SMFError>) -> String {
    match r.unwrap() {
        PropertyValue::AString(a) => a.inner,
        _ => panic!("expected an ASCII string value"),
    }
}

#[test]
fn get_one_astring_with_private_handle() {
    let r = PropGetOne(
        None,
        "svc:/network/ssh:default",
        "general",
        "action_authorization",
        lookup_one_astring("solaris.smf.manage.ssh"),
    );
    assert_eq!(astring_of(r), "solaris.smf.manage.ssh");
}

#[test]
fn get_one_decodes_alike_with_shared_and_private_handle() {
    let hdl = SCFHandle::open(true, String::new()).unwrap();
    let shared = PropGetOne(
        Some(&hdl),
        "svc:/network/ssh:default",
        "general",
        "action_authorization",
        lookup_one_astring("solaris.smf.manage.ssh"),
    );
    let private = PropGetOne(
        None,
        "svc:/network/ssh:default",
        "general",
        "action_authorization",
        lookup_one_astring("solaris.smf.manage.ssh"),
    );
    assert_eq!(astring_of(shared), astring_of(private));
}

#[test]
fn get_one_private_bind_failure_is_registry_error() {
    let mut lookup = lookup_one_astring("ignored");
    lookup.bind_ok = false;
    lookup.registry_failure = "connection refused".to_string();
    let r = PropGetOne(None, "svc:/a:b", "general", "enabled", lookup);
    let e = r.err().unwrap();
    assert_eq!(e.kind, SMFErrorKind::Registry);
    assert_eq!(e.smf_error, "connection refused");
}

#[test]
fn get_one_rejects_embedded_nul_arguments() {
    let r = PropGetOne(None, "svc:/a\u{0}b", "general", "enabled", lookup_one_astring(""));
    assert_eq!(r.err().unwrap().kind, SMFErrorKind::InvalidArgument);
    let r = PropGetOne(None, "svc:/a:b", "gen\u{0}eral", "enabled", lookup_one_astring(""));
    assert_eq!(r.err().unwrap().kind, SMFErrorKind::InvalidArgument);
    let r = PropGetOne(None, "svc:/a:b", "general", "enab\u{0}led", lookup_one_astring(""));
    assert_eq!(r.err().unwrap().kind, SMFErrorKind::InvalidArgument);
}

#[test]
fn get_one_unresolved_is_registry_error() {
    let mut lookup = lookup_one_astring("ignored");
    lookup.resolved = false;
    lookup.registry_failure = "entity not found".to_string();
    let r = PropGetOne(None, "svc:/a:b", "general", "enabled", lookup);
    let e = r.err().unwrap();
    assert_eq!(e.kind, SMFErrorKind::Registry);
    assert_eq!(e.smf_error, "entity not found");
}

#[test]
fn get_one_cardinality_carries_observed_count() {
    for count in [0u64, 2, 3, 17] {
        let mut lookup = lookup_one_astring("ignored");
        lookup.count = count;
        let r = PropGetOne(None, "svc:/a:b", "general", "enabled", lookup);
        let e = r.err().unwrap();
        assert_eq!(e.kind, SMFErrorKind::Cardinality { count });
    }
    let mut lookup = lookup_one_astring("ignored");
    lookup.count = 3;
    let e = PropGetOne(None, "svc:/a:b", "general", "enabled", lookup).err().unwrap();
    assert_eq!(e.smf_error, "expected 1 propval, got 3");
}

#[test]
fn get_one_succeeds_exactly_on_the_astring_tag() {
    let tags = [
        PropTypeTag::Boolean,
        PropTypeTag::Count,
        PropTypeTag::Integer,
        PropTypeTag::Time,
        PropTypeTag::AString,
        PropTypeTag::Opaque,
        PropTypeTag::UString,
        PropTypeTag::Uri,
        PropTypeTag::Fmri,
        PropTypeTag::Host,
        PropTypeTag::Hostname,
        PropTypeTag::NetAddress,
        PropTypeTag::NetAddressV4,
        PropTypeTag::NetAddressV6,
    ];
    for tag in tags.iter() {
        let mut lookup = lookup_one_astring("value");
        lookup.tag = *tag;
        let r = PropGetOne(None, "svc:/a:b", "general", "enabled", lookup);
        if *tag == PropTypeTag::AString {
            assert_eq!(astring_of(r), "value");
        } else {
            let e = r.err().unwrap();
            assert_eq!(e.kind, SMFErrorKind::UnsupportedType { tag: *tag });
            assert_eq!(e.smf_error, "not implemented");
        }
    }
}

#[test]
fn check_no_nul_accepts_and_rejects() {
    assert!(check_no_nul("svc:/network/ssh:default").is_ok());
    assert!(check_no_nul("").is_ok());
    let e = check_no_nul("a\u{0}b").err().unwrap();
    assert_eq!(e.kind, SMFErrorKind::InvalidArgument);
}

#[test]
fn decimal_rendering_is_exact() {
    let cases: [(u64, &str); 6] = [
        (0, "0"),
        (7, "7"),
        (10, "10"),
        (409, "409"),
        (1000, "1000"),
        (18446744073709551615, "18446744073709551615"),
    ];
    for (n, text) in cases.iter() {
        let mut s = String::new();
        push_decimal(&mut s, *n);
        assert_eq!(s, *text);
    }
}

#[test]
fn error_constructors_set_kind_and_message() {
    let e = SMFError::new("internal error".to_string());
    assert_eq!(e.kind, SMFErrorKind::Registry);
    assert_eq!(*e.message(), "internal error");
    let e = SMFError::not_associated();
    assert_eq!(e.kind, SMFErrorKind::NotAssociated);
    let e = SMFError::cardinality(0);
    assert_eq!(e.kind, SMFErrorKind::Cardinality { count: 0 });
    assert_eq!(e.smf_error, "expected 1 propval, got 0");
    let e = SMFError::unsupported_type(PropTypeTag::Time);
    assert_eq!(e.kind, SMFErrorKind::UnsupportedType { tag: PropTypeTag::Time });
}

#[test]
fn bool_prop_value_and_text() {
    let t = BoolProp { inner: true };
    let f = BoolProp { inner: false };
    assert!(t.get_value());
    assert!(!f.get_value());
    assert_eq!(t.to_string(), "true");
    assert_eq!(f.to_string(), "false");
}

#[test]
fn astring_prop_holds_decoded_text() {
    let a = AStringProp { inner: "solaris.smf.manage.ssh".to_string() };
    assert_eq!(a.inner, "solaris.smf.manage.ssh");
}
