use rock_wire::TicketClaims;

fn claims(sub: &str) -> TicketClaims {
    TicketClaims { aud: "rock".to_string(), exp: 1_700_000_000, sub: sub.to_string() }
}

#[test]
fn fid_of_a_fid_subject() {
    assert_eq!(claims("fid:42").fid(), Some(42));
    assert_eq!(claims("fid:0").fid(), Some(0));
    assert_eq!(claims("fid:+7").fid(), Some(7));
    assert_eq!(claims("fid:18446744073709551615").fid(), Some(u64::MAX));
}

#[test]
fn no_fid_without_the_prefix_or_a_number() {
    assert_eq!(claims("").fid(), None);
    assert_eq!(claims("fid").fid(), None);
    assert_eq!(claims("fid:").fid(), None);
    assert_eq!(claims("FID:42").fid(), None);
    assert_eq!(claims("user:42").fid(), None);
    assert_eq!(claims(" fid:42").fid(), None);
    assert_eq!(claims("fid: 42").fid(), None);
    assert_eq!(claims("fid:-1").fid(), None);
    assert_eq!(claims("fid:4x").fid(), None);
    assert_eq!(claims("fid:18446744073709551616").fid(), None);
}

#[test]
fn fid_agrees_with_strip_and_parse() {
    for sub in ["fid:1", "fid:", "fid:12ab", "fid:é", "éfid:1", "fid:+", "fid:00012", "fi"] {
        let expected = sub.strip_prefix("fid:").and_then(|rest| rest.parse::<u64>().ok());
        assert_eq!(claims(sub).fid(), expected, "{sub:?}");
    }
}

#[test]
fn rendered_fid_subject_names_the_fid() {
    for fid in [0u64, 5, 123_456, u64::MAX] {
        assert_eq!(claims(&format!("fid:{fid}")).fid(), Some(fid));
    }
}
