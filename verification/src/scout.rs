//! Peer discovery: role filters and the `scout` operation.
//!
//! `scout` registers a handler that is invoked once per discovered peer.
//! Its `what` argument is an optional `|`-separated list of role names
//! drawn from `client`, `peer` and `router`; an absent list means all
//! three, and invalid text fails synchronously before any network action.

use vstd::prelude::*;
use crate::text::chars_eq_str;
use crate::text::chars_of;

verus! {

/// A peer role in the overlay network.
#[derive(Clone, Copy, PartialEq, Eq, Structural, Debug)]
pub enum WhatAmI {
    Client,
    Peer,
    Router,
}

/// A filter over peer roles.
#[derive(Clone, Copy, PartialEq, Eq, Structural, Debug)]
pub struct WhatAmIMatcher {
    pub client: bool,
    pub peer: bool,
    pub router: bool,
}

/// The filter that admits no role.
pub open spec fn no_roles() -> WhatAmIMatcher {
    WhatAmIMatcher { client: false, peer: false, router: false }
}

/// The filter that admits every role.
pub open spec fn all_roles() -> WhatAmIMatcher {
    WhatAmIMatcher { client: true, peer: true, router: true }
}

/// `m` widened to also admit `role`.
pub open spec fn with_role(m: WhatAmIMatcher, role: WhatAmI) -> WhatAmIMatcher {
    match role {
        WhatAmI::Client => WhatAmIMatcher { client: true, ..m },
        WhatAmI::Peer => WhatAmIMatcher { peer: true, ..m },
        WhatAmI::Router => WhatAmIMatcher { router: true, ..m },
    }
}

impl WhatAmIMatcher {
    /// Whether the filter admits `role`.
    pub open spec fn spec_admits(self, role: WhatAmI) -> bool {
        match role {
            WhatAmI::Client => self.client,
            WhatAmI::Peer => self.peer,
            WhatAmI::Router => self.router,
        }
    }

    /// Whether the filter admits `role`.
    pub fn admits(&self, role: WhatAmI) -> (r: bool)
        ensures
            r == self.spec_admits(role),
    {
        match role {
            WhatAmI::Client => self.client,
            WhatAmI::Peer => self.peer,
            WhatAmI::Router => self.router,
        }
    }
}

/// The role a single list segment names, if any.
pub open spec fn role_of(seg: Seq<char>) -> Option<WhatAmI> {
    if seg == "client"@ {
        Some(WhatAmI::Client)
    } else if seg == "peer"@ {
        Some(WhatAmI::Peer)
    } else if seg == "router"@ {
        Some(WhatAmI::Router)
    } else {
        None
    }
}

/// Left-to-right reading of a `|`-separated role list: `s` is the text
/// still to read, `seg` the segment read so far, `acc` the roles already
/// admitted. Every segment must name a role.
pub open spec fn parse_roles_from(
    s: Seq<char>,
    seg: Seq<char>,
    acc: WhatAmIMatcher,
) -> Option<WhatAmIMatcher>
    decreases s.len(),
{
    if s.len() == 0 {
        match role_of(seg) {
            Some(r) => Some(with_role(acc, r)),
            None => None,
        }
    } else if s[0] == '|' {
        match role_of(seg) {
            Some(r) => parse_roles_from(s.drop_first(), Seq::empty(), with_role(acc, r)),
            None => None,
        }
    } else {
        parse_roles_from(s.drop_first(), seg.push(s[0]), acc)
    }
}

/// What a `|`-separated role list denotes: the union of the roles it
/// names, or nothing if some segment names no role.
pub open spec fn spec_parse_matcher(s: Seq<char>) -> Option<WhatAmIMatcher> {
    parse_roles_from(s, Seq::empty(), no_roles())
}

/// Classify one segment of a role list.
fn classify_segment(seg: &Vec<char>) -> (r: Option<WhatAmI>)
    ensures
        r == role_of(seg@),
{
    if chars_eq_str(seg, "client") {
        Some(WhatAmI::Client)
    } else if chars_eq_str(seg, "peer") {
        Some(WhatAmI::Peer)
    } else if chars_eq_str(seg, "router") {
        Some(WhatAmI::Router)
    } else {
        None
    }
}

/// Parse a `|`-separated role list into the filter it denotes.
pub fn parse_matcher(s: &str) -> (r: Option<WhatAmIMatcher>)
    ensures
        r == spec_parse_matcher(s@),
{
    let cs = chars_of(s);
    let mut acc = WhatAmIMatcher { client: false, peer: false, router: false };
    let mut seg: Vec<char> = Vec::new();
    let mut i: usize = 0;
    proof {
        assert(cs@.subrange(0, cs@.len() as int) =~= cs@);
    }
    while i < cs.len()
        invariant
            cs@ == s@,
            i <= cs@.len(),
            parse_roles_from(cs@.subrange(i as int, cs@.len() as int), seg@, acc)
                == spec_parse_matcher(s@),
        decreases cs@.len() - i,
    {
        let c = cs[i];
        proof {
            assert(cs@.subrange(i as int, cs@.len() as int)[0] == cs@[i as int]);
            assert(cs@.subrange(i as int, cs@.len() as int).drop_first()
                =~= cs@.subrange(i + 1, cs@.len() as int));
        }
        if c == '|' {
            match classify_segment(&seg) {
                Some(role) => {
                    acc = match role {
                        WhatAmI::Client => WhatAmIMatcher { client: true, ..acc },
                        WhatAmI::Peer => WhatAmIMatcher { peer: true, ..acc },
                        WhatAmI::Router => WhatAmIMatcher { router: true, ..acc },
                    };
                    seg = Vec::new();
                },
                None => {
                    return None;
                },
            }
        } else {
            seg.push(c);
        }
        i = i + 1;
    }
    proof {
        assert(cs@.subrange(i as int, cs@.len() as int).len() == 0);
    }
    match classify_segment(&seg) {
        Some(role) => Some(
            match role {
                WhatAmI::Client => WhatAmIMatcher { client: true, ..acc },
                WhatAmI::Peer => WhatAmIMatcher { peer: true, ..acc },
                WhatAmI::Router => WhatAmIMatcher { router: true, ..acc },
            },
        ),
        None => None,
    }
}

/// The role list could not be parsed; it must be a `|`-separated list of
/// `peer`, `client` or `router`.
#[derive(PartialEq, Eq, Debug)]
pub struct WhatAmIParseError {
    pub text: String,
}

impl WhatAmIParseError {
    /// What went wrong, as reported to the caller.
    pub fn message(&self) -> (r: String)
        ensures
            r@ == "Couldn't parse `"@ + self.text@
                + "` into a WhatAmIMatcher: must be a `|`-separated list of `peer`, `client` or `router`"@,
    {
        let mut m = "Couldn't parse `".to_owned();
        m.append(self.text.as_str());
        m.append(
            "` into a WhatAmIMatcher: must be a `|`-separated list of `peer`, `client` or `router`",
        );
        m
    }
}

/// A live discovery handle: its handler is invoked once per discovered
/// peer whose role the matcher admits, until the handle is released.
#[derive(Clone, Copy, PartialEq, Eq, Structural, Debug)]
pub struct Scout {
    pub matcher: WhatAmIMatcher,
}

/// Validate the `what` argument of a discovery request. An absent list
/// admits every role; invalid text fails before any network action, so no
/// handler is registered for it.
pub fn scout(what: Option<&str>) -> (r: Result<Scout, WhatAmIParseError>)
    ensures
        match what {
            None => r == Ok::<Scout, WhatAmIParseError>(Scout { matcher: all_roles() }),
            Some(w) => match spec_parse_matcher(w@) {
                Some(m) => r == Ok::<Scout, WhatAmIParseError>(Scout { matcher: m }),
                None => match r {
                    Ok(_) => false,
                    Err(e) => e.text@ == w@,
                },
            },
        },
{
    match what {
        None => Ok(Scout { matcher: WhatAmIMatcher { client: true, peer: true, router: true } }),
        Some(w) => match parse_matcher(w) {
            Some(m) => Ok(Scout { matcher: m }),
            None => Err(WhatAmIParseError { text: w.to_owned() }),
        },
    }
}

/// Reading a separator-free stretch of text only moves it onto the
/// current segment.
proof fn lemma_parse_moves_prefix(pre: Seq<char>, s: Seq<char>, seg: Seq<char>, acc: WhatAmIMatcher)
    requires
        forall|i: int| 0 <= i < pre.len() ==> pre[i] != '|',
    ensures
        parse_roles_from(pre + s, seg, acc) == parse_roles_from(s, seg + pre, acc),
    decreases pre.len(),
{
    if pre.len() == 0 {
        assert(pre + s =~= s);
        assert(seg + pre =~= seg);
    } else {
        assert((pre + s)[0] == pre[0]);
        assert((pre + s).drop_first() =~= pre.drop_first() + s);
        lemma_parse_moves_prefix(pre.drop_first(), s, seg.push(pre[0]), acc);
        assert(seg.push(pre[0]) + pre.drop_first() =~= seg + pre);
    }
}

/// Scouting with no role list behaves as scouting with
/// `"client|peer|router"`: both install the filter that admits every peer
/// role, so the same discovered-peer roles are reported.
pub proof fn lemma_scout_default_is_all_roles()
    ensures
        spec_parse_matcher("client|peer|router"@) == Some(all_roles()),
        forall|role: WhatAmI| all_roles().spec_admits(role),
{
    reveal_strlit("client|peer|router");
    reveal_strlit("client");
    reveal_strlit("peer");
    reveal_strlit("router");
    let full = "client|peer|router"@;
    let c = "client"@;
    let p = "peer"@;
    let r = "router"@;
    let bar = seq!['|'];
    let rest1 = bar + (p + (bar + r));
    let rest2 = p + (bar + r);
    let rest3 = bar + r;
    assert(c.len() == 6 && p.len() == 4 && r.len() == 6 && full.len() == 18);
    assert(forall|i: int| 0 <= i < c.len() ==> c[i] != '|');
    assert(forall|i: int| 0 <= i < p.len() ==> p[i] != '|');
    assert(forall|i: int| 0 <= i < r.len() ==> r[i] != '|');
    assert(full =~= c + rest1);
    let m0 = no_roles();
    let m1 = with_role(m0, WhatAmI::Client);
    let m2 = with_role(m1, WhatAmI::Peer);
    lemma_parse_moves_prefix(c, rest1, Seq::empty(), m0);
    assert(Seq::empty() + c =~= c);
    assert(rest1[0] == '|');
    assert(role_of(c) == Some(WhatAmI::Client));
    assert(rest1.drop_first() =~= rest2);
    assert(parse_roles_from(rest1, c, m0) == parse_roles_from(rest2, Seq::empty(), m1));
    lemma_parse_moves_prefix(p, rest3, Seq::empty(), m1);
    assert(Seq::empty() + p =~= p);
    assert(rest3[0] == '|');
    assert(role_of(p) == Some(WhatAmI::Peer));
    assert(rest3.drop_first() =~= r);
    assert(parse_roles_from(rest3, p, m1) == parse_roles_from(r, Seq::empty(), m2));
    lemma_parse_moves_prefix(r, Seq::empty(), Seq::empty(), m2);
    assert(r + Seq::<char>::empty() =~= r);
    assert(Seq::<char>::empty() + r =~= r);
    assert(role_of(r) == Some(WhatAmI::Router));
    assert(parse_roles_from(r, Seq::empty(), m2) == Some(with_role(m2, WhatAmI::Router)));
    assert(with_role(m2, WhatAmI::Router) == all_roles());
}

} // verus!
