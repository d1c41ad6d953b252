//! The option-overlay protocol.
//!
//! Every declarative operation accepts a base configuration plus a sparse,
//! order-independent mapping of named overrides. For each option name an
//! operation recognizes, a present entry of the right type overrides the
//! base; a present entry of the wrong type aborts the whole operation with
//! a descriptive error before any network action; names the operation does
//! not recognize are silently ignored. Absent names leave the base default
//! (`None`, read as "inherit") untouched.

use vstd::prelude::*;
use crate::text::str_eq;
use crate::types::CongestionControl;
use crate::types::ConsolidationMode;
use crate::types::Priority;
use crate::types::QueryTarget;
use crate::types::Reliability;
use crate::types::SampleKind;

verus! {

/// A caller-supplied override value. Callers hand values of arbitrary
/// dynamic type; `Foreign` stands for a value of none of the types any
/// option expects, so it is ill-typed for every recognized option.
#[derive(Clone, Copy, PartialEq, Eq, Structural, Debug)]
pub enum OptValue {
    Kind(SampleKind),
    Congestion(CongestionControl),
    Prio(Priority),
    Flag(bool),
    Consolidation(ConsolidationMode),
    Target(QueryTarget),
    Rely(Reliability),
    Foreign,
}

/// One named override.
#[derive(Debug, PartialEq, Eq)]
pub struct OptEntry {
    pub name: String,
    pub value: OptValue,
}

/// A sparse mapping of option names to override values. Callers pass each
/// name at most once (it models a keyword mapping); lookup takes the first
/// occurrence.
#[derive(Debug, PartialEq, Eq)]
pub struct Options {
    pub entries: Vec<OptEntry>,
}

/// The option names recognized by at least one operation.
#[derive(Clone, Copy, PartialEq, Eq, Structural, Debug)]
pub enum OptName {
    Kind,
    CongestionControl,
    Priority,
    LocalRouting,
    Consolidation,
    Target,
    Complete,
    Local,
    Reliability,
}

/// A recognized option was present with a value of the wrong type.
#[derive(Clone, Copy, PartialEq, Eq, Structural, Debug)]
pub enum OverlayError {
    WrongType(OptName),
}

/// First value bound to `name`, if any.
pub open spec fn spec_lookup(entries: Seq<OptEntry>, name: Seq<char>) -> Option<OptValue>
    decreases entries.len(),
{
    if entries.len() == 0 {
        None
    } else if entries[0].name@ == name {
        Some(entries[0].value)
    } else {
        spec_lookup(entries.drop_first(), name)
    }
}

impl Options {
    /// The empty mapping: no overrides.
    pub fn new() -> (r: Options)
        ensures
            r.entries@.len() == 0,
    {
        Options { entries: Vec::new() }
    }

    /// Bind `name` to `value`. The caller is expected not to repeat a name;
    /// if it does, the earlier binding wins on lookup.
    pub fn set(&mut self, name: String, value: OptValue)
        ensures
            final(self).entries@ == old(self).entries@.push(OptEntry { name, value }),
    {
        self.entries.push(OptEntry { name, value });
    }

    /// First value bound to `name`, if any.
    pub fn lookup(&self, name: &str) -> (r: Option<OptValue>)
        ensures
            r == spec_lookup(self.entries@, name@),
    {
        let mut i: usize = 0;
        proof {
            assert(self.entries@.subrange(0, self.entries@.len() as int) =~= self.entries@);
        }
        while i < self.entries.len()
            invariant
                i <= self.entries@.len(),
                spec_lookup(self.entries@, name@) == spec_lookup(
                    self.entries@.subrange(i as int, self.entries@.len() as int),
                    name@,
                ),
            decreases self.entries@.len() - i,
        {
            let entry = &self.entries[i];
            proof {
                assert(self.entries@.subrange(i as int, self.entries@.len() as int)[0]
                    == self.entries@[i as int]);
            }
            if str_eq(entry.name.as_str(), name) {
                return Some(entry.value);
            }
            proof {
                assert(self.entries@.subrange(i as int, self.entries@.len() as int).drop_first()
                    =~= self.entries@.subrange(i + 1, self.entries@.len() as int));
            }
            i = i + 1;
        }
        proof {
            assert(self.entries@.subrange(i as int, self.entries@.len() as int).len() == 0);
        }
        None
    }
}

/// Overrides recognized by `put` and `delete`. `None` means: inherit the
/// base configuration of the operation.
#[derive(Clone, Copy, PartialEq, Eq, Debug)]
pub struct PutOpts {
    pub kind: Option<SampleKind>,
    pub congestion_control: Option<CongestionControl>,
    pub priority: Option<Priority>,
    pub local_routing: Option<bool>,
}

/// Overrides recognized by `get`.
#[derive(Clone, Copy, PartialEq, Eq, Debug)]
pub struct GetOpts {
    pub local_routing: Option<bool>,
    pub consolidation: Option<ConsolidationMode>,
    pub target: Option<QueryTarget>,
}

/// Overrides recognized by `declare_queryable`.
#[derive(Clone, Copy, PartialEq, Eq, Debug)]
pub struct QueryableOpts {
    pub complete: Option<bool>,
}

/// Overrides recognized by `declare_publisher`.
#[derive(Clone, Copy, PartialEq, Eq, Debug)]
pub struct PublisherOpts {
    pub local_routing: Option<bool>,
    pub priority: Option<Priority>,
    pub congestion_control: Option<CongestionControl>,
}

/// Overrides recognized by `declare_subscriber` and
/// `declare_pull_subscriber`. `local` restricts delivery to same-process
/// publications; only a `true` override turns it on.
#[derive(Clone, Copy, PartialEq, Eq, Debug)]
pub struct SubscriberOpts {
    pub local: bool,
    pub reliability: Option<Reliability>,
}

pub open spec fn kind_override(v: Option<OptValue>) -> Option<SampleKind> {
    match v {
        Some(OptValue::Kind(k)) => Some(k),
        _ => None,
    }
}

pub open spec fn kind_ill_typed(v: Option<OptValue>) -> bool {
    match v {
        Some(OptValue::Kind(_)) => false,
        Some(_) => true,
        None => false,
    }
}

pub open spec fn congestion_override(v: Option<OptValue>) -> Option<CongestionControl> {
    match v {
        Some(OptValue::Congestion(c)) => Some(c),
        _ => None,
    }
}

pub open spec fn congestion_ill_typed(v: Option<OptValue>) -> bool {
    match v {
        Some(OptValue::Congestion(_)) => false,
        Some(_) => true,
        None => false,
    }
}

pub open spec fn prio_override(v: Option<OptValue>) -> Option<Priority> {
    match v {
        Some(OptValue::Prio(p)) => Some(p),
        _ => None,
    }
}

pub open spec fn prio_ill_typed(v: Option<OptValue>) -> bool {
    match v {
        Some(OptValue::Prio(_)) => false,
        Some(_) => true,
        None => false,
    }
}

pub open spec fn flag_override(v: Option<OptValue>) -> Option<bool> {
    match v {
        Some(OptValue::Flag(b)) => Some(b),
        _ => None,
    }
}

pub open spec fn flag_ill_typed(v: Option<OptValue>) -> bool {
    match v {
        Some(OptValue::Flag(_)) => false,
        Some(_) => true,
        None => false,
    }
}

pub open spec fn consolidation_override(v: Option<OptValue>) -> Option<ConsolidationMode> {
    match v {
        Some(OptValue::Consolidation(c)) => Some(c),
        _ => None,
    }
}

pub open spec fn consolidation_ill_typed(v: Option<OptValue>) -> bool {
    match v {
        Some(OptValue::Consolidation(_)) => false,
        Some(_) => true,
        None => false,
    }
}

pub open spec fn target_override(v: Option<OptValue>) -> Option<QueryTarget> {
    match v {
        Some(OptValue::Target(t)) => Some(t),
        _ => None,
    }
}

pub open spec fn target_ill_typed(v: Option<OptValue>) -> bool {
    match v {
        Some(OptValue::Target(_)) => false,
        Some(_) => true,
        None => false,
    }
}

pub open spec fn rely_override(v: Option<OptValue>) -> Option<Reliability> {
    match v {
        Some(OptValue::Rely(r)) => Some(r),
        _ => None,
    }
}

pub open spec fn rely_ill_typed(v: Option<OptValue>) -> bool {
    match v {
        Some(OptValue::Rely(_)) => false,
        Some(_) => true,
        None => false,
    }
}

/// `true` exactly when the `local` override is present, well-typed and set.
pub open spec fn local_set(v: Option<OptValue>) -> bool {
    match v {
        Some(OptValue::Flag(b)) => b,
        _ => false,
    }
}

/// Overlay result for `put`/`delete`: the first recognized option whose
/// value is ill-typed aborts, in the fixed order kind, congestion_control,
/// priority, local_routing; otherwise each present option overrides its
/// field.
pub open spec fn spec_put_overlay(entries: Seq<OptEntry>) -> Result<PutOpts, OverlayError> {
    let kind_v = spec_lookup(entries, "kind"@);
    let cc_v = spec_lookup(entries, "congestion_control"@);
    let prio_v = spec_lookup(entries, "priority"@);
    let lr_v = spec_lookup(entries, "local_routing"@);
    if kind_ill_typed(kind_v) {
        Err(OverlayError::WrongType(OptName::Kind))
    } else if congestion_ill_typed(cc_v) {
        Err(OverlayError::WrongType(OptName::CongestionControl))
    } else if prio_ill_typed(prio_v) {
        Err(OverlayError::WrongType(OptName::Priority))
    } else if flag_ill_typed(lr_v) {
        Err(OverlayError::WrongType(OptName::LocalRouting))
    } else {
        Ok(
            PutOpts {
                kind: kind_override(kind_v),
                congestion_control: congestion_override(cc_v),
                priority: prio_override(prio_v),
                local_routing: flag_override(lr_v),
            },
        )
    }
}

/// Overlay result for `get`, in the fixed order local_routing,
/// consolidation, target.
pub open spec fn spec_get_overlay(entries: Seq<OptEntry>) -> Result<GetOpts, OverlayError> {
    let lr_v = spec_lookup(entries, "local_routing"@);
    let cons_v = spec_lookup(entries, "consolidation"@);
    let target_v = spec_lookup(entries, "target"@);
    if flag_ill_typed(lr_v) {
        Err(OverlayError::WrongType(OptName::LocalRouting))
    } else if consolidation_ill_typed(cons_v) {
        Err(OverlayError::WrongType(OptName::Consolidation))
    } else if target_ill_typed(target_v) {
        Err(OverlayError::WrongType(OptName::Target))
    } else {
        Ok(
            GetOpts {
                local_routing: flag_override(lr_v),
                consolidation: consolidation_override(cons_v),
                target: target_override(target_v),
            },
        )
    }
}

/// Overlay result for `declare_queryable`.
pub open spec fn spec_queryable_overlay(entries: Seq<OptEntry>) -> Result<
    QueryableOpts,
    OverlayError,
> {
    let complete_v = spec_lookup(entries, "complete"@);
    if flag_ill_typed(complete_v) {
        Err(OverlayError::WrongType(OptName::Complete))
    } else {
        Ok(QueryableOpts { complete: flag_override(complete_v) })
    }
}

/// Overlay result for `declare_publisher`, in the fixed order
/// local_routing, priority, congestion_control.
pub open spec fn spec_publisher_overlay(entries: Seq<OptEntry>) -> Result<
    PublisherOpts,
    OverlayError,
> {
    let lr_v = spec_lookup(entries, "local_routing"@);
    let prio_v = spec_lookup(entries, "priority"@);
    let cc_v = spec_lookup(entries, "congestion_control"@);
    if flag_ill_typed(lr_v) {
        Err(OverlayError::WrongType(OptName::LocalRouting))
    } else if prio_ill_typed(prio_v) {
        Err(OverlayError::WrongType(OptName::Priority))
    } else if congestion_ill_typed(cc_v) {
        Err(OverlayError::WrongType(OptName::CongestionControl))
    } else {
        Ok(
            PublisherOpts {
                local_routing: flag_override(lr_v),
                priority: prio_override(prio_v),
                congestion_control: congestion_override(cc_v),
            },
        )
    }
}

/// Overlay result for `declare_subscriber` and `declare_pull_subscriber`,
/// in the fixed order local, reliability. A well-typed `local` override of
/// `false` has the same effect as an absent one.
pub open spec fn spec_subscriber_overlay(entries: Seq<OptEntry>) -> Result<
    SubscriberOpts,
    OverlayError,
> {
    let local_v = spec_lookup(entries, "local"@);
    let rely_v = spec_lookup(entries, "reliability"@);
    if flag_ill_typed(local_v) {
        Err(OverlayError::WrongType(OptName::Local))
    } else if rely_ill_typed(rely_v) {
        Err(OverlayError::WrongType(OptName::Reliability))
    } else {
        Ok(SubscriberOpts { local: local_set(local_v), reliability: rely_override(rely_v) })
    }
}

/// Merge the overrides recognized by `put`/`delete`, aborting on the first
/// ill-typed one.
pub fn put_overlay(opts: &Options) -> (r: Result<PutOpts, OverlayError>)
    ensures
        r == spec_put_overlay(opts.entries@),
{
    let kind_v = opts.lookup("kind");
    let cc_v = opts.lookup("congestion_control");
    let prio_v = opts.lookup("priority");
    let lr_v = opts.lookup("local_routing");
    let kind: Option<SampleKind> = match kind_v {
        Some(OptValue::Kind(k)) => Some(k),
        Some(_) => {
            return Err(OverlayError::WrongType(OptName::Kind));
        },
        None => None,
    };
    let congestion_control: Option<CongestionControl> = match cc_v {
        Some(OptValue::Congestion(c)) => Some(c),
        Some(_) => {
            return Err(OverlayError::WrongType(OptName::CongestionControl));
        },
        None => None,
    };
    let priority: Option<Priority> = match prio_v {
        Some(OptValue::Prio(p)) => Some(p),
        Some(_) => {
            return Err(OverlayError::WrongType(OptName::Priority));
        },
        None => None,
    };
    let local_routing: Option<bool> = match lr_v {
        Some(OptValue::Flag(b)) => Some(b),
        Some(_) => {
            return Err(OverlayError::WrongType(OptName::LocalRouting));
        },
        None => None,
    };
    Ok(PutOpts { kind, congestion_control, priority, local_routing })
}

/// Merge the overrides recognized by `get`.
pub fn get_overlay(opts: &Options) -> (r: Result<GetOpts, OverlayError>)
    ensures
        r == spec_get_overlay(opts.entries@),
{
    let lr_v = opts.lookup("local_routing");
    let cons_v = opts.lookup("consolidation");
    let target_v = opts.lookup("target");
    let local_routing: Option<bool> = match lr_v {
        Some(OptValue::Flag(b)) => Some(b),
        Some(_) => {
            return Err(OverlayError::WrongType(OptName::LocalRouting));
        },
        None => None,
    };
    let consolidation: Option<ConsolidationMode> = match cons_v {
        Some(OptValue::Consolidation(c)) => Some(c),
        Some(_) => {
            return Err(OverlayError::WrongType(OptName::Consolidation));
        },
        None => None,
    };
    let target: Option<QueryTarget> = match target_v {
        Some(OptValue::Target(t)) => Some(t),
        Some(_) => {
            return Err(OverlayError::WrongType(OptName::Target));
        },
        None => None,
    };
    Ok(GetOpts { local_routing, consolidation, target })
}

/// Merge the overrides recognized by `declare_queryable`.
pub fn queryable_overlay(opts: &Options) -> (r: Result<QueryableOpts, OverlayError>)
    ensures
        r == spec_queryable_overlay(opts.entries@),
{
    let complete_v = opts.lookup("complete");
    let complete: Option<bool> = match complete_v {
        Some(OptValue::Flag(b)) => Some(b),
        Some(_) => {
            return Err(OverlayError::WrongType(OptName::Complete));
        },
        None => None,
    };
    Ok(QueryableOpts { complete })
}

/// Merge the overrides recognized by `declare_publisher`.
pub fn publisher_overlay(opts: &Options) -> (r: Result<PublisherOpts, OverlayError>)
    ensures
        r == spec_publisher_overlay(opts.entries@),
{
    let lr_v = opts.lookup("local_routing");
    let prio_v = opts.lookup("priority");
    let cc_v = opts.lookup("congestion_control");
    let local_routing: Option<bool> = match lr_v {
        Some(OptValue::Flag(b)) => Some(b),
        Some(_) => {
            return Err(OverlayError::WrongType(OptName::LocalRouting));
        },
        None => None,
    };
    let priority: Option<Priority> = match prio_v {
        Some(OptValue::Prio(p)) => Some(p),
        Some(_) => {
            return Err(OverlayError::WrongType(OptName::Priority));
        },
        None => None,
    };
    let congestion_control: Option<CongestionControl> = match cc_v {
        Some(OptValue::Congestion(c)) => Some(c),
        Some(_) => {
            return Err(OverlayError::WrongType(OptName::CongestionControl));
        },
        None => None,
    };
    Ok(PublisherOpts { local_routing, priority, congestion_control })
}

/// Merge the overrides recognized by `declare_subscriber` and
/// `declare_pull_subscriber`.
pub fn subscriber_overlay(opts: &Options) -> (r: Result<SubscriberOpts, OverlayError>)
    ensures
        r == spec_subscriber_overlay(opts.entries@),
{
    let local_v = opts.lookup("local");
    let rely_v = opts.lookup("reliability");
    let local: bool = match local_v {
        Some(OptValue::Flag(b)) => b,
        Some(_) => {
            return Err(OverlayError::WrongType(OptName::Local));
        },
        None => false,
    };
    let reliability: Option<Reliability> = match rely_v {
        Some(OptValue::Rely(r)) => Some(r),
        Some(_) => {
            return Err(OverlayError::WrongType(OptName::Reliability));
        },
        None => None,
    };
    Ok(SubscriberOpts { local, reliability })
}

/// The names `put` and `delete` recognize.
pub open spec fn put_recognizes(name: Seq<char>) -> bool {
    ||| name == "kind"@
    ||| name == "congestion_control"@
    ||| name == "priority"@
    ||| name == "local_routing"@
}

/// The names `get` recognizes.
pub open spec fn get_recognizes(name: Seq<char>) -> bool {
    ||| name == "local_routing"@
    ||| name == "consolidation"@
    ||| name == "target"@
}

/// The names `declare_queryable` recognizes.
pub open spec fn queryable_recognizes(name: Seq<char>) -> bool {
    name == "complete"@
}

/// The names `declare_publisher` recognizes.
pub open spec fn publisher_recognizes(name: Seq<char>) -> bool {
    ||| name == "local_routing"@
    ||| name == "priority"@
    ||| name == "congestion_control"@
}

/// The names `declare_subscriber` and `declare_pull_subscriber` recognize.
pub open spec fn subscriber_recognizes(name: Seq<char>) -> bool {
    ||| name == "local"@
    ||| name == "reliability"@
}

/// Inserting an entry bound to a different name anywhere in the mapping
/// leaves every other lookup unchanged.
pub proof fn lemma_lookup_skips_other_name(
    entries: Seq<OptEntry>,
    i: int,
    e: OptEntry,
    name: Seq<char>,
)
    requires
        0 <= i <= entries.len(),
        e.name@ != name,
    ensures
        spec_lookup(entries.insert(i, e), name) == spec_lookup(entries, name),
    decreases entries.len(),
{
    let with = entries.insert(i, e);
    if i == 0 {
        assert(with[0] == e);
        assert(with.drop_first() =~= entries);
    } else {
        assert(with[0] == entries[0]);
        if entries[0].name@ == name {
        } else {
            assert(with.drop_first() =~= entries.drop_first().insert(i - 1, e));
            lemma_lookup_skips_other_name(entries.drop_first(), i - 1, e, name);
        }
    }
}

/// Two adjacent entries bound to distinct names may change places without
/// changing any lookup: each option maps to an independent field, so the
/// order in which a caller lists its overrides does not matter.
pub proof fn lemma_lookup_swap_adjacent(entries: Seq<OptEntry>, i: int, name: Seq<char>)
    requires
        0 <= i,
        i + 1 < entries.len(),
        entries[i].name@ != entries[i + 1].name@,
    ensures
        spec_lookup(entries.update(i, entries[i + 1]).update(i + 1, entries[i]), name)
            == spec_lookup(entries, name),
    decreases i,
{
    let swapped = entries.update(i, entries[i + 1]).update(i + 1, entries[i]);
    if i == 0 {
        assert(swapped[0] == entries[1]);
        assert(swapped[1] == entries[0]);
        assert(swapped.drop_first()[0] == swapped[1]);
        assert(entries.drop_first()[0] == entries[1]);
        if entries[0].name@ == name {
            assert(entries[1].name@ != name);
            assert(spec_lookup(swapped, name) == spec_lookup(swapped.drop_first(), name));
            assert(spec_lookup(swapped.drop_first(), name) == Some(entries[0].value));
            assert(spec_lookup(entries, name) == Some(entries[0].value));
        } else if entries[1].name@ == name {
            assert(spec_lookup(entries, name) == spec_lookup(entries.drop_first(), name));
            assert(spec_lookup(entries.drop_first(), name) == Some(entries[1].value));
            assert(spec_lookup(swapped, name) == Some(entries[1].value));
        } else {
            assert(spec_lookup(swapped, name) == spec_lookup(swapped.drop_first(), name));
            assert(spec_lookup(swapped.drop_first(), name) == spec_lookup(
                swapped.drop_first().drop_first(),
                name,
            ));
            assert(spec_lookup(entries, name) == spec_lookup(entries.drop_first(), name));
            assert(spec_lookup(entries.drop_first(), name) == spec_lookup(
                entries.drop_first().drop_first(),
                name,
            ));
            assert(swapped.drop_first().drop_first() =~= entries.drop_first().drop_first());
        }
    } else {
        assert(swapped[0] == entries[0]);
        if entries[0].name@ != name {
            let tail = entries.drop_first();
            assert(tail[i - 1] == entries[i]);
            assert(tail[i] == entries[i + 1]);
            lemma_lookup_swap_adjacent(tail, i - 1, name);
            assert(swapped.drop_first() =~= tail.update(i - 1, tail[i]).update(i, tail[i - 1]));
        }
    }
}

/// Order independence for `put`/`delete`: swapping two adjacent overrides
/// with distinct names leaves the merged configuration unchanged.
pub proof fn lemma_put_overlay_order_independent(entries: Seq<OptEntry>, i: int)
    requires
        0 <= i,
        i + 1 < entries.len(),
        entries[i].name@ != entries[i + 1].name@,
    ensures
        spec_put_overlay(entries.update(i, entries[i + 1]).update(i + 1, entries[i]))
            == spec_put_overlay(entries),
{
    lemma_lookup_swap_adjacent(entries, i, "kind"@);
    lemma_lookup_swap_adjacent(entries, i, "congestion_control"@);
    lemma_lookup_swap_adjacent(entries, i, "priority"@);
    lemma_lookup_swap_adjacent(entries, i, "local_routing"@);
}

/// Order independence for `get`.
pub proof fn lemma_get_overlay_order_independent(entries: Seq<OptEntry>, i: int)
    requires
        0 <= i,
        i + 1 < entries.len(),
        entries[i].name@ != entries[i + 1].name@,
    ensures
        spec_get_overlay(entries.update(i, entries[i + 1]).update(i + 1, entries[i]))
            == spec_get_overlay(entries),
{
    lemma_lookup_swap_adjacent(entries, i, "local_routing"@);
    lemma_lookup_swap_adjacent(entries, i, "consolidation"@);
    lemma_lookup_swap_adjacent(entries, i, "target"@);
}

/// Order independence for `declare_queryable`.
pub proof fn lemma_queryable_overlay_order_independent(entries: Seq<OptEntry>, i: int)
    requires
        0 <= i,
        i + 1 < entries.len(),
        entries[i].name@ != entries[i + 1].name@,
    ensures
        spec_queryable_overlay(entries.update(i, entries[i + 1]).update(i + 1, entries[i]))
            == spec_queryable_overlay(entries),
{
    lemma_lookup_swap_adjacent(entries, i, "complete"@);
}

/// Order independence for `declare_publisher`.
pub proof fn lemma_publisher_overlay_order_independent(entries: Seq<OptEntry>, i: int)
    requires
        0 <= i,
        i + 1 < entries.len(),
        entries[i].name@ != entries[i + 1].name@,
    ensures
        spec_publisher_overlay(entries.update(i, entries[i + 1]).update(i + 1, entries[i]))
            == spec_publisher_overlay(entries),
{
    lemma_lookup_swap_adjacent(entries, i, "local_routing"@);
    lemma_lookup_swap_adjacent(entries, i, "priority"@);
    lemma_lookup_swap_adjacent(entries, i, "congestion_control"@);
}

/// Order independence for the subscriber declarations.
pub proof fn lemma_subscriber_overlay_order_independent(entries: Seq<OptEntry>, i: int)
    requires
        0 <= i,
        i + 1 < entries.len(),
        entries[i].name@ != entries[i + 1].name@,
    ensures
        spec_subscriber_overlay(entries.update(i, entries[i + 1]).update(i + 1, entries[i]))
            == spec_subscriber_overlay(entries),
{
    lemma_lookup_swap_adjacent(entries, i, "local"@);
    lemma_lookup_swap_adjacent(entries, i, "reliability"@);
}

/// An options mapping containing a name that `put`/`delete` does not
/// recognize has the same overlay result as the same mapping without it.
pub proof fn lemma_put_overlay_ignores_unrecognized(entries: Seq<OptEntry>, i: int, e: OptEntry)
    requires
        0 <= i <= entries.len(),
        !put_recognizes(e.name@),
    ensures
        spec_put_overlay(entries.insert(i, e)) == spec_put_overlay(entries),
{
    lemma_lookup_skips_other_name(entries, i, e, "kind"@);
    lemma_lookup_skips_other_name(entries, i, e, "congestion_control"@);
    lemma_lookup_skips_other_name(entries, i, e, "priority"@);
    lemma_lookup_skips_other_name(entries, i, e, "local_routing"@);
}

/// An options mapping containing a name that `get` does not recognize has
/// the same overlay result as the same mapping without it.
pub proof fn lemma_get_overlay_ignores_unrecognized(entries: Seq<OptEntry>, i: int, e: OptEntry)
    requires
        0 <= i <= entries.len(),
        !get_recognizes(e.name@),
    ensures
        spec_get_overlay(entries.insert(i, e)) == spec_get_overlay(entries),
{
    lemma_lookup_skips_other_name(entries, i, e, "local_routing"@);
    lemma_lookup_skips_other_name(entries, i, e, "consolidation"@);
    lemma_lookup_skips_other_name(entries, i, e, "target"@);
}

/// An options mapping containing a name that `declare_queryable` does not
/// recognize has the same overlay result as the same mapping without it.
pub proof fn lemma_queryable_overlay_ignores_unrecognized(
    entries: Seq<OptEntry>,
    i: int,
    e: OptEntry,
)
    requires
        0 <= i <= entries.len(),
        !queryable_recognizes(e.name@),
    ensures
        spec_queryable_overlay(entries.insert(i, e)) == spec_queryable_overlay(entries),
{
    lemma_lookup_skips_other_name(entries, i, e, "complete"@);
}

/// An options mapping containing a name that `declare_publisher` does not
/// recognize has the same overlay result as the same mapping without it.
pub proof fn lemma_publisher_overlay_ignores_unrecognized(
    entries: Seq<OptEntry>,
    i: int,
    e: OptEntry,
)
    requires
        0 <= i <= entries.len(),
        !publisher_recognizes(e.name@),
    ensures
        spec_publisher_overlay(entries.insert(i, e)) == spec_publisher_overlay(entries),
{
    lemma_lookup_skips_other_name(entries, i, e, "local_routing"@);
    lemma_lookup_skips_other_name(entries, i, e, "priority"@);
    lemma_lookup_skips_other_name(entries, i, e, "congestion_control"@);
}

/// An options mapping containing a name that the subscriber declarations do
/// not recognize has the same overlay result as the same mapping without it.
pub proof fn lemma_subscriber_overlay_ignores_unrecognized(
    entries: Seq<OptEntry>,
    i: int,
    e: OptEntry,
)
    requires
        0 <= i <= entries.len(),
        !subscriber_recognizes(e.name@),
    ensures
        spec_subscriber_overlay(entries.insert(i, e)) == spec_subscriber_overlay(entries),
{
    lemma_lookup_skips_other_name(entries, i, e, "local"@);
    lemma_lookup_skips_other_name(entries, i, e, "reliability"@);
}

} // verus!
