use vale_gateway::route_config::{
    convert_path_rewrite, convert_request_header_modifier, convert_request_redirect,
    convert_url_rewrite, map_hostname_match_to_type, HostnameMatch,
};
use vale_gateway::routes::{
    HeaderModifierSpec, HttpHeader, PathModifierSpec, PathModifierType, RedirectScheme,
    RequestRedirectSpec, UrlRewriteSpec,
};

#[test]
fn test_convert_request_header_modifier() {
    let set_headers = vec![HttpHeader {
        name: "X-Gateway".to_string(),
        value: "vale-gateway".to_string(),
    }];

    let add_headers = vec![HttpHeader {
        name: "X-Request-ID".to_string(),
        value: "123".to_string(),
    }];

    let remove_headers = vec!["X-Debug".to_string()];

    let gw_modifier = HeaderModifierSpec {
        set: Some(set_headers),
        add: Some(add_headers),
        remove: Some(remove_headers),
    };

    let result = convert_request_header_modifier(&gw_modifier);
    assert!(result.is_ok(), "conversion should succeed");

    if let Ok(Some(modifier)) = result {
        assert!(modifier.set().is_some());
        if let Some(set) = modifier.set().as_ref() {
            assert_eq!(set.len(), 1);
            assert_eq!(set[0].name, "X-Gateway");
            assert_eq!(set[0].value, "vale-gateway");
        }

        assert!(modifier.add().is_some());
        if let Some(add) = modifier.add().as_ref() {
            assert_eq!(add.len(), 1);
            assert_eq!(add[0].name, "X-Request-ID");
            assert_eq!(add[0].value, "123");
        }

        assert!(modifier.remove().is_some());
        if let Some(remove) = modifier.remove().as_ref() {
            assert_eq!(remove.len(), 1);
            assert_eq!(remove[0], "X-Debug");
        }
    } else {
        assert!(result.is_ok());
        if let Ok(opt) = result {
            assert!(opt.is_some(), "Expected modifier to be Some, got None");
        }
    }
}

#[test]
fn header_modifier_without_parts_stays_empty() {
    let m = HeaderModifierSpec { set: None, add: None, remove: None };
    let converted = convert_request_header_modifier(&m).unwrap().unwrap();
    assert!(converted.set().is_none());
    assert!(converted.add().is_none());
    assert!(converted.remove().is_none());
}

#[test]
fn redirect_keeps_fitting_port_and_status() {
    let r = RequestRedirectSpec {
        hostname: Some("example.com".to_string()),
        path: None,
        port: Some(8443),
        scheme: Some(RedirectScheme::Https),
        status_code: Some(301),
    };
    let c = convert_request_redirect(&r);
    assert_eq!(c.scheme.as_deref(), Some("https"));
    assert_eq!(c.hostname.as_deref(), Some("example.com"));
    assert_eq!(c.port, Some(8443));
    assert_eq!(c.status_code, Some(301));
    assert!(c.path.is_none());
}

#[test]
fn redirect_falls_back_for_out_of_range_values() {
    let r = RequestRedirectSpec {
        hostname: None,
        path: None,
        port: Some(70000),
        scheme: Some(RedirectScheme::Http),
        status_code: Some(-1),
    };
    let c = convert_request_redirect(&r);
    assert_eq!(c.scheme.as_deref(), Some("http"));
    assert_eq!(c.port, Some(80));
    assert_eq!(c.status_code, Some(302));
}

#[test]
fn path_rewrite_and_url_rewrite_keep_their_parts() {
    let p = PathModifierSpec {
        type_: PathModifierType::ReplacePrefixMatch,
        replace_full_path: None,
        replace_prefix_match: Some("/api".to_string()),
    };
    let rewrite = convert_path_rewrite(&p);
    assert_eq!(rewrite.rewrite_type, PathModifierType::ReplacePrefixMatch);
    assert_eq!(rewrite.replace_prefix_match.as_deref(), Some("/api"));
    assert!(rewrite.replace_full_path.is_none());

    let u = UrlRewriteSpec { hostname: Some("internal".to_string()), path: Some(p) };
    let converted = convert_url_rewrite(&u);
    assert_eq!(converted.hostname.as_deref(), Some("internal"));
    assert_eq!(converted.path.unwrap().replace_prefix_match.as_deref(), Some("/api"));
}

#[test]
fn hostname_matches_by_leading_asterisks() {
    let exact = "api.example.com".to_string();
    assert_eq!(
        map_hostname_match_to_type(Some(&exact)),
        Some(HostnameMatch::Exact("api.example.com".to_string()))
    );
    let wildcard = "**.example.com".to_string();
    assert_eq!(
        map_hostname_match_to_type(Some(&wildcard)),
        Some(HostnameMatch::Suffix(".example.com".to_string()))
    );
    let empty = String::new();
    assert_eq!(map_hostname_match_to_type(Some(&empty)), None);
    assert_eq!(map_hostname_match_to_type(None), None);
}
