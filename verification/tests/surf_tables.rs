use http_adapter::schema::{Method, StatusCode, Version};
use http_adapter::surf_adapter::{
    method_from_surf, method_to_surf, status_from_surf, status_to_surf, version_from_surf,
    version_to_surf, SurfError, SurfMethod, SurfStatusCode, SurfVersion,
};

fn shared_methods() -> Vec<(Method, SurfMethod)> {
    vec![
        (Method::Get, SurfMethod::Get),
        (Method::Post, SurfMethod::Post),
        (Method::Put, SurfMethod::Put),
        (Method::Patch, SurfMethod::Patch),
        (Method::Delete, SurfMethod::Delete),
        (Method::Head, SurfMethod::Head),
        (Method::Connect, SurfMethod::Connect),
        (Method::Options, SurfMethod::Options),
        (Method::Trace, SurfMethod::Trace),
    ]
}

fn shared_versions() -> Vec<(Version, SurfVersion)> {
    vec![
        (Version::Http09, SurfVersion::Http0_9),
        (Version::Http10, SurfVersion::Http1_0),
        (Version::Http11, SurfVersion::Http1_1),
        (Version::Http2, SurfVersion::Http2_0),
        (Version::Http3, SurfVersion::Http3_0),
    ]
}

#[test]
fn every_shared_method_maps_to_its_namesake() {
    for (neutral, surf) in shared_methods() {
        assert_eq!(method_to_surf(&neutral).unwrap(), surf);
        assert_eq!(method_from_surf(surf), neutral);
    }
}

#[test]
fn method_round_trip_is_lossless() {
    for (neutral, _) in shared_methods() {
        let there = method_to_surf(&neutral).unwrap();
        assert_eq!(method_from_surf(there), neutral);
    }
}

#[test]
fn unshared_method_is_refused_by_name() {
    let result = method_to_surf(&Method::Other("PROPFIND".to_string()));
    assert!(matches!(result, Err(SurfError::InvalidMethod(name)) if name == "PROPFIND"));
}

#[test]
fn query_method_is_refused_by_name() {
    let result = method_to_surf(&Method::Other("QUERY".to_string()));
    assert!(matches!(result, Err(SurfError::InvalidMethod(name)) if name == "QUERY"));
}

#[test]
fn every_shared_version_maps_to_its_namesake() {
    for (neutral, surf) in shared_versions() {
        assert_eq!(version_to_surf(&neutral).unwrap(), surf);
        assert_eq!(version_from_surf(&surf).unwrap(), neutral);
    }
}

#[test]
fn version_round_trip_is_lossless() {
    for (neutral, _) in shared_versions() {
        let there = version_to_surf(&neutral).unwrap();
        assert_eq!(version_from_surf(&there).unwrap(), neutral);
    }
}

#[test]
fn unshared_neutral_version_is_refused_by_text() {
    let result = version_to_surf(&Version::Other("HTTP/4".to_string()));
    assert!(matches!(result, Err(SurfError::InvalidHttpVersion(text)) if text == "HTTP/4"));
}

#[test]
fn unshared_surf_version_is_refused_by_text() {
    let result = version_from_surf(&SurfVersion::Other("HTTP/4".to_string()));
    assert!(matches!(result, Err(SurfError::InvalidHttpVersion(text)) if text == "HTTP/4"));
}

#[test]
fn status_code_bounds() {
    assert!(StatusCode::from_u16(99).is_none());
    assert_eq!(StatusCode::from_u16(100).unwrap().as_u16(), 100);
    assert_eq!(StatusCode::from_u16(999).unwrap().as_u16(), 999);
    assert!(StatusCode::from_u16(1000).is_none());
    assert!(StatusCode::from_u16(0).is_none());
}

#[test]
fn catalogue_has_the_codes_that_surf_has() {
    let mut count = 0;
    for code in 0..=u16::MAX {
        let ours = SurfStatusCode::from_code(code);
        let theirs = surf::StatusCode::try_from(code);
        assert_eq!(ours.is_some(), theirs.is_ok(), "code {code}");
        if let Some(status) = ours {
            count += 1;
            assert_eq!(status.code(), code);
            assert_eq!(u16::from(theirs.unwrap()), code);
        }
    }
    assert_eq!(count, 59);
}

#[test]
fn catalogue_names_match_surf() {
    assert_eq!(SurfStatusCode::Okay.code(), u16::from(surf::StatusCode::Ok));
    assert_eq!(SurfStatusCode::ImATeapot.code(), u16::from(surf::StatusCode::ImATeapot));
    assert_eq!(SurfStatusCode::EarlyHints.code(), u16::from(surf::StatusCode::EarlyHints));
    assert_eq!(SurfStatusCode::TooEarly.code(), u16::from(surf::StatusCode::TooEarly));
    assert_eq!(
        SurfStatusCode::NetworkAuthenticationRequired.code(),
        u16::from(surf::StatusCode::NetworkAuthenticationRequired)
    );
    assert_eq!(SurfStatusCode::MultipleChoice.code(), 300);
    assert_eq!(SurfStatusCode::UnavailableForLegalReasons.code(), 451);
}

#[test]
fn every_covered_status_keeps_its_number() {
    let mut covered = 0;
    for code in 0..=u16::MAX {
        if let Some(status) = SurfStatusCode::from_code(code) {
            if status.is_uncovered() {
                continue;
            }
            covered += 1;
            let neutral = status_from_surf(status).unwrap();
            assert_eq!(neutral.as_u16(), code);
            assert_eq!(neutral.as_u16().to_string(), code.to_string());
        }
    }
    assert_eq!(covered, 57);
}

#[test]
fn early_hints_is_refused() {
    assert!(SurfStatusCode::EarlyHints.is_uncovered());
    let result = status_from_surf(SurfStatusCode::EarlyHints);
    assert!(matches!(result, Err(SurfError::InvalidStatusCode(103))));
}

#[test]
fn too_early_is_refused() {
    assert!(SurfStatusCode::TooEarly.is_uncovered());
    let result = status_from_surf(SurfStatusCode::TooEarly);
    assert!(matches!(result, Err(SurfError::InvalidStatusCode(425))));
}

#[test]
fn status_round_trip_is_lossless() {
    for code in 100..=999u16 {
        let neutral = StatusCode::from_u16(code).unwrap();
        match status_to_surf(neutral) {
            Ok(status) => {
                assert_eq!(status.code(), code);
                assert_eq!(status_from_surf(status).unwrap(), neutral);
            }
            Err(e) => {
                assert!(matches!(e, SurfError::InvalidStatusCode(c) if c == code));
                let catalogued = SurfStatusCode::from_code(code);
                assert!(catalogued.map_or(true, |s| s.is_uncovered()));
            }
        }
    }
}

#[test]
fn status_outside_the_catalogue_is_refused() {
    let teapot = StatusCode::from_u16(418).unwrap();
    assert_eq!(status_to_surf(teapot).unwrap(), SurfStatusCode::ImATeapot);
    let processing = StatusCode::from_u16(102).unwrap();
    assert!(matches!(status_to_surf(processing), Err(SurfError::InvalidStatusCode(102))));
    let early = StatusCode::from_u16(103).unwrap();
    assert!(matches!(status_to_surf(early), Err(SurfError::InvalidStatusCode(103))));
    let legacy = StatusCode::from_u16(999).unwrap();
    assert!(matches!(status_to_surf(legacy), Err(SurfError::InvalidStatusCode(999))));
}
