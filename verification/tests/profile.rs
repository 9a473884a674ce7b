use glider_rust::profile::parser::{parse_u8, profile_from_fields, waypoint_fields};
use glider_rust::profile::{GlideProfile, Waypoint};

#[test]
fn levels_parse_like_u8_after_trimming() {
    assert_eq!(parse_u8("10"), Some(10));
    assert_eq!(parse_u8(" 1 "), Some(1));
    assert_eq!(parse_u8("+7"), Some(7));
    assert_eq!(parse_u8("0"), Some(0));
    assert_eq!(parse_u8("255"), Some(255));
    assert_eq!(parse_u8("007"), Some(7));
    assert_eq!(parse_u8("256"), None);
    assert_eq!(parse_u8("99999999999"), None);
    assert_eq!(parse_u8("-1"), None);
    assert_eq!(parse_u8("+"), None);
    assert_eq!(parse_u8(""), None);
    assert_eq!(parse_u8("1 2"), None);
    assert_eq!(parse_u8("ten"), None);
    for n in 0..=255u8 {
        assert_eq!(parse_u8(&n.to_string()), Some(n));
        assert_eq!(parse_u8(&n.to_string()), n.to_string().trim().parse::<u8>().ok());
    }
}

#[test]
fn waypoint_lines_give_their_first_two_fields() {
    assert_eq!(
        waypoint_fields("-8949.12 -132.44"),
        Some(("-8949.12".to_string(), "-132.44".to_string()))
    );
    assert_eq!(
        waypoint_fields("  1.5,2.5 , 3"),
        Some(("1.5".to_string(), "2.5".to_string()))
    );
    assert_eq!(
        waypoint_fields("\t10\n20"),
        Some(("10".to_string(), "20".to_string()))
    );
    assert_eq!(waypoint_fields("42"), None);
    assert_eq!(waypoint_fields(" , ,"), None);
    assert_eq!(waypoint_fields(""), None);
}

#[test]
fn profiles_are_built_from_their_fields() {
    let p = profile_from_fields(
        Some("Test Route".to_string()),
        Some("1".to_string()),
        Some(" 10 ".to_string()),
        vec![Waypoint { x: 1, y: 2 }, Waypoint { x: 3, y: 4 }],
    )
    .expect("profile");
    assert_eq!(p.name.as_deref(), Some("Test Route"));
    assert_eq!(p.min_level, Some(1));
    assert_eq!(p.max_level, Some(10));
    assert_eq!(p.waypoints.len(), 2);

    let p = profile_from_fields(None, Some("x".to_string()), None, vec![Waypoint { x: 0, y: 0 }])
        .expect("profile");
    assert_eq!(p.min_level, None);
    assert_eq!(p.max_level, None);

    assert_eq!(
        profile_from_fields(Some("Empty".to_string()), None, None, Vec::new()).unwrap_err(),
        "profile has no waypoints"
    );
}

#[test]
fn validation_needs_a_waypoint() {
    let mut p = GlideProfile { name: None, min_level: None, max_level: None, waypoints: Vec::new() };
    assert_eq!(p.validate().unwrap_err(), "profile has no waypoints");
    p.waypoints.push(Waypoint { x: 0, y: 0 });
    assert!(p.validate().is_ok());
}

/// The fields of the legacy profile `<GlideProfile>` with the name "Test Route",
/// levels 1 to 10 and two waypoints, as the profile file holds them.
#[test]
fn parses_simple_legacy_profile() {
    let lines = ["-8949.12 -132.44", "-8952.00 -140.00"];
    let waypoints: Vec<Waypoint> = lines
        .iter()
        .filter_map(|line| {
            let (x, y) = waypoint_fields(line)?;
            Some(Waypoint {
                x: x.parse::<f32>().ok()?.to_bits(),
                y: y.parse::<f32>().ok()?.to_bits(),
            })
        })
        .collect();

    let parsed = profile_from_fields(
        Some("Test Route".to_string()),
        Some("1".to_string()),
        Some("10".to_string()),
        waypoints,
    )
    .expect("parse profile");

    assert_eq!(parsed.name.as_deref(), Some("Test Route"));
    assert_eq!(parsed.min_level, Some(1));
    assert_eq!(parsed.max_level, Some(10));
    assert_eq!(parsed.waypoints.len(), 2);
    assert!((f32::from_bits(parsed.waypoints[0].x) + 8949.12).abs() < 0.01);
}
