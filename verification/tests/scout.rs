use zsession::scout::Scout;
use zsession::scout::WhatAmI;
use zsession::scout::WhatAmIMatcher;
use zsession::scout::parse_matcher;
use zsession::scout::scout;

#[test]
fn parse_full_role_list_admits_every_role() {
    let m = parse_matcher("client|peer|router").unwrap();
    assert_eq!(
        m,
        WhatAmIMatcher {
            client: true,
            peer: true,
            router: true,
        }
    );
}

#[test]
fn parse_single_role() {
    let m = parse_matcher("peer").unwrap();
    assert_eq!(
        m,
        WhatAmIMatcher {
            client: false,
            peer: true,
            router: false,
        }
    );
    assert!(m.admits(WhatAmI::Peer));
    assert!(!m.admits(WhatAmI::Client));
    assert!(!m.admits(WhatAmI::Router));
}

#[test]
fn parse_two_roles_in_any_order() {
    assert_eq!(parse_matcher("router|client"), parse_matcher("client|router"));
    let m = parse_matcher("router|client").unwrap();
    assert!(m.admits(WhatAmI::Client));
    assert!(!m.admits(WhatAmI::Peer));
    assert!(m.admits(WhatAmI::Router));
}

#[test]
fn parse_repeated_role_is_idempotent() {
    assert_eq!(parse_matcher("peer|peer"), parse_matcher("peer"));
}

#[test]
fn parse_rejects_empty_text_and_empty_segments() {
    assert_eq!(parse_matcher(""), None);
    assert_eq!(parse_matcher("peer|"), None);
    assert_eq!(parse_matcher("|peer"), None);
    assert_eq!(parse_matcher("peer||router"), None);
}

#[test]
fn parse_rejects_unknown_role() {
    assert_eq!(parse_matcher("bogus"), None);
    assert_eq!(parse_matcher("peer|bogus"), None);
    assert_eq!(parse_matcher("Client"), None);
}

#[test]
fn scout_default_equals_explicit_full_list() {
    let implicit = scout(None).unwrap();
    let explicit = scout(Some("client|peer|router")).unwrap();
    assert_eq!(implicit, explicit);
    assert_eq!(
        implicit,
        Scout {
            matcher: WhatAmIMatcher {
                client: true,
                peer: true,
                router: true,
            },
        }
    );
}

#[test]
fn scout_bogus_fails_with_parse_error() {
    let e = scout(Some("bogus")).unwrap_err();
    assert_eq!(e.text, "bogus".to_string());
}

#[test]
fn parse_error_message_names_the_offending_text() {
    let e = scout(Some("bogus")).unwrap_err();
    assert_eq!(
        e.message(),
        "Couldn't parse `bogus` into a WhatAmIMatcher: must be a `|`-separated list of `peer`, `client` or `router`".to_string()
    );
}

#[test]
fn scout_accepts_partial_role_list() {
    let s = scout(Some("router")).unwrap();
    assert!(s.matcher.router);
    assert!(!s.matcher.client);
    assert!(!s.matcher.peer);
}
