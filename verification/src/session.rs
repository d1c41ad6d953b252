//! The session façade: one-shot operations and declared resources.
//!
//! Each operation validates its inputs and merges its option overlay
//! synchronously, before any network action: on success it yields a fully
//! determined request value (or resource handle) for the surrounding
//! program to submit to the engine; on an ill-typed override it fails with
//! the overlay's error and no request exists to submit. Event delivery,
//! network submission and the engine's acceptance are outside this module.

use vstd::prelude::*;
use crate::pull::PullSubscriber;
use crate::options::Options;
use crate::options::OverlayError;
use crate::options::spec_get_overlay;
use crate::options::spec_publisher_overlay;
use crate::options::spec_put_overlay;
use crate::options::spec_queryable_overlay;
use crate::options::spec_subscriber_overlay;
use crate::options::get_overlay;
use crate::options::publisher_overlay;
use crate::options::put_overlay;
use crate::options::queryable_overlay;
use crate::options::subscriber_overlay;
use crate::types::CongestionControl;
use crate::types::ConsolidationMode;
use crate::types::KeyExpr;
use crate::types::Priority;
use crate::types::QueryTarget;
use crate::types::Reliability;
use crate::types::SampleKind;
use crate::types::Selector;
use crate::types::Value;
use crate::types::ZenohId;

verus! {

/// A validated publication, ready for synchronous submission. Built by
/// `put` and `delete` (and by a `Publisher`); a `None` field inherits the
/// engine's base configuration.
#[derive(Debug, PartialEq, Eq)]
pub struct PublicationRequest {
    pub key_expr: KeyExpr,
    pub value: Value,
    pub kind: SampleKind,
    pub congestion_control: Option<CongestionControl>,
    pub priority: Option<Priority>,
    pub local_routing: Option<bool>,
}

/// A validated distributed query, ready for synchronous registration of
/// its reply handler and submission. Replies arrive asynchronously, zero
/// or more times, after submission returns.
#[derive(Debug, PartialEq, Eq)]
pub struct GetRequest {
    pub selector: Selector,
    pub local_routing: Option<bool>,
    pub consolidation: Option<ConsolidationMode>,
    pub target: Option<QueryTarget>,
}

/// A handle bound to one queryable registration: its handler is invoked
/// once per matching incoming query.
#[derive(Debug, PartialEq, Eq)]
pub struct Queryable {
    pub key_expr: KeyExpr,
    pub complete: Option<bool>,
}

/// A handle bound to one key expression and one session: repeatable
/// `put`/`delete` without re-specifying the key expression.
#[derive(Debug, PartialEq, Eq)]
pub struct Publisher {
    pub key_expr: KeyExpr,
    pub local_routing: Option<bool>,
    pub priority: Option<Priority>,
    pub congestion_control: Option<CongestionControl>,
}

/// A handle bound to one push-mode subscription: its handler is invoked
/// once per matching incoming sample, for the lifetime of the handle.
#[derive(Debug, PartialEq, Eq)]
pub struct Subscriber {
    pub key_expr: KeyExpr,
    pub local: bool,
    pub reliability: Option<Reliability>,
}

/// Each raw peer identifier wrapped as a `ZenohId`, in enumeration order.
fn wrap_ids(raw: &Vec<Vec<u8>>) -> (r: Vec<ZenohId>)
    ensures
        r@.len() == raw@.len(),
        forall|i: int| 0 <= i < raw@.len() ==> r@[i].bytes@ == raw@[i]@,
{
    let mut r: Vec<ZenohId> = Vec::new();
    let mut i: usize = 0;
    while i < raw.len()
        invariant
            i <= raw@.len(),
            r@.len() == i,
            forall|j: int| 0 <= j < i ==> r@[j].bytes@ == raw@[j]@,
        decreases raw@.len() - i,
    {
        r.push(ZenohId { bytes: crate::types::clone_bytes(&raw[i]) });
        i = i + 1;
    }
    r
}

/// The façade over one underlying network session. Clones of one session
/// and every resource declared from them share exactly one underlying
/// connection; the façade itself holds only the session's own identifier.
#[derive(Debug, PartialEq, Eq)]
pub struct Session {
    pub zid: ZenohId,
}

impl Clone for Session {
    /// Clones share the one underlying connection; the façade's own state
    /// is the identifier alone.
    fn clone(&self) -> (r: Self)
        ensures
            r.zid.bytes@ == self.zid.bytes@,
    {
        Session { zid: self.zid.clone() }
    }
}

impl Session {
    /// Wrap one freshly opened underlying session, identified by `zid`.
    /// Opening itself is the engine's: it fails there, not here.
    pub fn new(zid: ZenohId) -> (r: Session)
        ensures
            r.zid.bytes@ == zid.bytes@,
    {
        Session { zid }
    }

    /// This session's own identifier; no failure mode.
    pub fn zid(&self) -> (r: ZenohId)
        ensures
            r.bytes@ == self.zid.bytes@,
    {
        self.zid.clone()
    }

    /// Wrap the raw identifiers of the currently known routers, in the
    /// order the engine enumerated them; empty if none are known, with no
    /// failure mode. The enumeration itself is the engine's.
    pub fn routers_zid(&self, raw: &Vec<Vec<u8>>) -> (r: Vec<ZenohId>)
        ensures
            r@.len() == raw@.len(),
            forall|i: int| 0 <= i < raw@.len() ==> r@[i].bytes@ == raw@[i]@,
    {
        wrap_ids(raw)
    }

    /// Wrap the raw identifiers of the currently known peers, in the order
    /// the engine enumerated them; empty if none are known, with no
    /// failure mode. The enumeration itself is the engine's.
    pub fn peers_zid(&self, raw: &Vec<Vec<u8>>) -> (r: Vec<ZenohId>)
        ensures
            r@.len() == raw@.len(),
            forall|i: int| 0 <= i < raw@.len() ==> r@[i].bytes@ == raw@[i]@,
    {
        wrap_ids(raw)
    }

    /// Build a put for `key_expr`/`value`: merge the overlay, default the
    /// kind to `Put`, and fail on the first ill-typed override with no
    /// request built.
    pub fn put(&self, key_expr: &KeyExpr, value: Value, opts: &Options) -> (r: Result<
        PublicationRequest,
        OverlayError,
    >)
        ensures
            match spec_put_overlay(opts.entries@) {
                Ok(o) => match r {
                    Ok(req) => {
                        &&& req.key_expr@ == key_expr@
                        &&& req.value == value
                        &&& req.kind == (match o.kind {
                            Some(k) => k,
                            None => SampleKind::Put,
                        })
                        &&& req.congestion_control == o.congestion_control
                        &&& req.priority == o.priority
                        &&& req.local_routing == o.local_routing
                    },
                    Err(_) => false,
                },
                Err(e) => r == Err::<PublicationRequest, OverlayError>(e),
            },
    {
        let o = put_overlay(opts)?;
        let kind = match o.kind {
            Some(k) => k,
            None => SampleKind::Put,
        };
        Ok(
            PublicationRequest {
                key_expr: key_expr.clone(),
                value,
                kind,
                congestion_control: o.congestion_control,
                priority: o.priority,
                local_routing: o.local_routing,
            },
        )
    }

    /// Build a deletion marker for `key_expr`: as `put`, but the kind
    /// defaults to `Delete` and the payload is empty.
    pub fn delete(&self, key_expr: &KeyExpr, opts: &Options) -> (r: Result<
        PublicationRequest,
        OverlayError,
    >)
        ensures
            match spec_put_overlay(opts.entries@) {
                Ok(o) => match r {
                    Ok(req) => {
                        &&& req.key_expr@ == key_expr@
                        &&& req.value.payload@ == Seq::<u8>::empty()
                        &&& req.value.encoding@ == Seq::<char>::empty()
                        &&& req.kind == (match o.kind {
                            Some(k) => k,
                            None => SampleKind::Delete,
                        })
                        &&& req.congestion_control == o.congestion_control
                        &&& req.priority == o.priority
                        &&& req.local_routing == o.local_routing
                    },
                    Err(_) => false,
                },
                Err(e) => r == Err::<PublicationRequest, OverlayError>(e),
            },
    {
        let o = put_overlay(opts)?;
        let kind = match o.kind {
            Some(k) => k,
            None => SampleKind::Delete,
        };
        Ok(
            PublicationRequest {
                key_expr: key_expr.clone(),
                value: Value::empty(),
                kind,
                congestion_control: o.congestion_control,
                priority: o.priority,
                local_routing: o.local_routing,
            },
        )
    }

    /// Build a distributed query for `selector`: merge the overlay and
    /// fail on the first ill-typed override with no query registered.
    pub fn get(&self, selector: &Selector, opts: &Options) -> (r: Result<GetRequest, OverlayError>)
        ensures
            match spec_get_overlay(opts.entries@) {
                Ok(o) => match r {
                    Ok(req) => {
                        &&& req.selector == *selector
                        &&& req.local_routing == o.local_routing
                        &&& req.consolidation == o.consolidation
                        &&& req.target == o.target
                    },
                    Err(_) => false,
                },
                Err(e) => r == Err::<GetRequest, OverlayError>(e),
            },
    {
        let o = get_overlay(opts)?;
        Ok(
            GetRequest {
                selector: selector.clone(),
                local_routing: o.local_routing,
                consolidation: o.consolidation,
                target: o.target,
            },
        )
    }

    /// Hand `key_expr` to the engine for optimization. The optimized
    /// handle denotes the same expression; validation is the engine's.
    pub fn declare_keyexpr(&self, key_expr: &KeyExpr) -> (r: KeyExpr)
        ensures
            r@ == key_expr@,
    {
        key_expr.clone()
    }

    /// Declare a queryable on `key_expr`; fails on an ill-typed override
    /// with nothing registered.
    pub fn declare_queryable(&self, key_expr: KeyExpr, opts: &Options) -> (r: Result<
        Queryable,
        OverlayError,
    >)
        ensures
            match spec_queryable_overlay(opts.entries@) {
                Ok(o) => match r {
                    Ok(q) => q.key_expr == key_expr && q.complete == o.complete,
                    Err(_) => false,
                },
                Err(e) => r == Err::<Queryable, OverlayError>(e),
            },
    {
        let o = queryable_overlay(opts)?;
        Ok(Queryable { key_expr, complete: o.complete })
    }

    /// Declare a publisher bound to `key_expr`; fails on an ill-typed
    /// override with nothing registered.
    pub fn declare_publisher(&self, key_expr: KeyExpr, opts: &Options) -> (r: Result<
        Publisher,
        OverlayError,
    >)
        ensures
            match spec_publisher_overlay(opts.entries@) {
                Ok(o) => match r {
                    Ok(p) => {
                        &&& p.key_expr == key_expr
                        &&& p.local_routing == o.local_routing
                        &&& p.priority == o.priority
                        &&& p.congestion_control == o.congestion_control
                    },
                    Err(_) => false,
                },
                Err(e) => r == Err::<Publisher, OverlayError>(e),
            },
    {
        let o = publisher_overlay(opts)?;
        Ok(
            Publisher {
                key_expr,
                local_routing: o.local_routing,
                priority: o.priority,
                congestion_control: o.congestion_control,
            },
        )
    }

    /// Declare a push-mode subscriber on `key_expr`; fails on an ill-typed
    /// override with nothing registered.
    pub fn declare_subscriber(&self, key_expr: &KeyExpr, opts: &Options) -> (r: Result<
        Subscriber,
        OverlayError,
    >)
        ensures
            match spec_subscriber_overlay(opts.entries@) {
                Ok(o) => match r {
                    Ok(s) => {
                        &&& s.key_expr@ == key_expr@
                        &&& s.local == o.local
                        &&& s.reliability == o.reliability
                    },
                    Err(_) => false,
                },
                Err(e) => r == Err::<Subscriber, OverlayError>(e),
            },
    {
        let o = subscriber_overlay(opts)?;
        Ok(Subscriber { key_expr: key_expr.clone(), local: o.local, reliability: o.reliability })
    }

    /// Declare a pull-mode subscriber on `key_expr`: same overlay as a
    /// push-mode one, but delivery waits for explicit `pull` calls and the
    /// fresh handle has nothing buffered. Fails on an ill-typed override
    /// with nothing registered.
    pub fn declare_pull_subscriber(&self, key_expr: &KeyExpr, opts: &Options) -> (r: Result<
        PullSubscriber,
        OverlayError,
    >)
        ensures
            match spec_subscriber_overlay(opts.entries@) {
                Ok(o) => match r {
                    Ok(s) => {
                        &&& s.key_expr@ == key_expr@
                        &&& s.local == o.local
                        &&& s.reliability == o.reliability
                        &&& s.pending@ == Seq::<crate::types::Sample>::empty()
                    },
                    Err(_) => false,
                },
                Err(e) => r == Err::<PullSubscriber, OverlayError>(e),
            },
    {
        let o = subscriber_overlay(opts)?;
        Ok(PullSubscriber::new(key_expr.clone(), o.local, o.reliability))
    }
}

impl Clone for Publisher {
    fn clone(&self) -> (r: Self)
        ensures
            r == *self,
    {
        Publisher {
            key_expr: self.key_expr.clone(),
            local_routing: self.local_routing,
            priority: self.priority,
            congestion_control: self.congestion_control,
        }
    }
}

impl Publisher {
    /// A publisher is handed out as-is.
    pub fn pynew(this: Publisher) -> (r: Publisher)
        ensures
            r == this,
    {
        this
    }

    /// The key expression the publisher is bound to.
    pub fn key_expr(&self) -> (r: KeyExpr)
        ensures
            r@ == self.key_expr@,
    {
        self.key_expr.clone()
    }

    /// Build a put of `value` on the bound key expression, under the
    /// publisher's own configuration.
    pub fn put(&self, value: Value) -> (r: PublicationRequest)
        ensures
            r.key_expr@ == self.key_expr@,
            r.value == value,
            r.kind == SampleKind::Put,
            r.congestion_control == self.congestion_control,
            r.priority == self.priority,
            r.local_routing == self.local_routing,
    {
        PublicationRequest {
            key_expr: self.key_expr.clone(),
            value,
            kind: SampleKind::Put,
            congestion_control: self.congestion_control,
            priority: self.priority,
            local_routing: self.local_routing,
        }
    }

    /// Build a deletion marker on the bound key expression, under the
    /// publisher's own configuration.
    pub fn delete(&self) -> (r: PublicationRequest)
        ensures
            r.key_expr@ == self.key_expr@,
            r.value.payload@ == Seq::<u8>::empty(),
            r.value.encoding@ == Seq::<char>::empty(),
            r.kind == SampleKind::Delete,
            r.congestion_control == self.congestion_control,
            r.priority == self.priority,
            r.local_routing == self.local_routing,
    {
        PublicationRequest {
            key_expr: self.key_expr.clone(),
            value: Value::empty(),
            kind: SampleKind::Delete,
            congestion_control: self.congestion_control,
            priority: self.priority,
            local_routing: self.local_routing,
        }
    }
}

} // verus!
