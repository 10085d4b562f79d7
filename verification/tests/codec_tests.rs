use repo_audit::Permissions;
use repo_audit::codec::parse_permissions;
use repo_audit::codec::render_permissions;

#[test]
fn permissions_fixture_deserializes_and_reserializes_unchanged() {
    let fixture = "{\"admin\":true,\"push\":false,\"pull\":true}".to_string();
    let p = parse_permissions(&fixture).expect("fixture parses");
    assert_eq!(p, Permissions { admin: true, push: false, pull: true });
    assert_eq!(render_permissions(&p), fixture);
}

#[test]
fn permissions_round_trip_preserves_every_field_combination() {
    for admin in [false, true] {
        for push in [false, true] {
            for pull in [false, true] {
                let p = Permissions { admin, push, pull };
                let text = render_permissions(&p);
                assert_eq!(parse_permissions(&text), Some(p));
            }
        }
    }
}

#[test]
fn permissions_serialization_shape_is_fixed() {
    let p = Permissions { admin: false, push: true, pull: true };
    assert_eq!(
        render_permissions(&p),
        "{\"admin\":false,\"push\":true,\"pull\":true}".to_string()
    );
}

#[test]
fn malformed_permissions_text_is_rejected() {
    for bad in [
        "",
        "{}",
        "{\"admin\":true}",
        "{\"admin\":yes,\"push\":true,\"pull\":true}",
        "{\"push\":true,\"admin\":true,\"pull\":true}",
        "{\"admin\":true,\"push\":true,\"pull\":true",
    ] {
        assert_eq!(parse_permissions(&bad.to_string()), None);
    }
}
