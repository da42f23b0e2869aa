//! Resource-loader delegate callbacks: which event a callback reports, and what
//! becomes of the request object the bridge hands over with it.
//!
//! Request objects are identified by their address; `0` stands for null.

use vstd::prelude::*;

use crate::text::str_eq;

verus! {

/// The delegate events of a resource loader.
#[derive(Debug, Clone, Copy, PartialEq, Eq, Structural)]
pub enum AssetResourceLoaderEventKind {
    /// The loader asks for a resource to be loaded.
    LoadingRequested,
    /// The loader asks for a resource to be renewed.
    RenewalRequested,
    /// A loading request was cancelled.
    LoadingCancelled,
}

impl AssetResourceLoaderEventKind {
    /// The event a bridge event name stands for.
    pub open spec fn spec_from_event_name(name: Seq<char>) -> Option<Self> {
        if name == "loading_requested"@ {
            Some(AssetResourceLoaderEventKind::LoadingRequested)
        } else if name == "renewal_requested"@ {
            Some(AssetResourceLoaderEventKind::RenewalRequested)
        } else if name == "loading_cancelled"@ {
            Some(AssetResourceLoaderEventKind::LoadingCancelled)
        } else {
            None
        }
    }

    /// Decodes a bridge event name; an unknown name stands for no event.
    pub fn from_event_name(name: &str) -> (r: Option<Self>)
        ensures
            r == Self::spec_from_event_name(name@),
    {
        if str_eq(name, "loading_requested") {
            Some(AssetResourceLoaderEventKind::LoadingRequested)
        } else if str_eq(name, "renewal_requested") {
            Some(AssetResourceLoaderEventKind::RenewalRequested)
        } else if str_eq(name, "loading_cancelled") {
            Some(AssetResourceLoaderEventKind::LoadingCancelled)
        } else {
            None
        }
    }
}

impl AssetResourceLoaderEventKind {
    /// Whether the delegate should answer that it will handle the request: a
    /// loading or renewal request is waited for; a cancellation is not.
    pub fn should_wait_for_loading(self) -> (r: bool)
        ensures
            r == (self is LoadingRequested || self is RenewalRequested),
    {
        match self {
            AssetResourceLoaderEventKind::LoadingRequested => true,
            AssetResourceLoaderEventKind::RenewalRequested => true,
            AssetResourceLoaderEventKind::LoadingCancelled => false,
        }
    }
}

/// What a delegate callback does with the object handed over with it.
#[derive(Debug, Clone, Copy, PartialEq, Eq, Structural)]
pub enum AssetResourceLoaderDispatch {
    /// Hand the event, owning the object, to the observer's callback, whose
    /// answer the callback returns.
    Deliver { kind: AssetResourceLoaderEventKind, object: u64 },
    /// Answer `false` without calling the observer, releasing the object when
    /// there is one.
    Reject { release: Option<u64> },
}

/// The dispatch of a callback: an event is delivered when there is an
/// observer, a readable known event name and a non-null object; otherwise the
/// callback answers `false` and releases the object, if any.
pub open spec fn dispatch_spec(has_observer: bool, event_name: Option<Seq<char>>, object: u64) -> AssetResourceLoaderDispatch {
    let release = if object == 0 { None } else { Some(object) };
    if !has_observer || event_name is None || object == 0 {
        AssetResourceLoaderDispatch::Reject { release }
    } else {
        match AssetResourceLoaderEventKind::spec_from_event_name(event_name.unwrap()) {
            Some(kind) => AssetResourceLoaderDispatch::Deliver { kind, object },
            None => AssetResourceLoaderDispatch::Reject { release },
        }
    }
}

/// Decides what a resource-loader callback does; `event_name` is absent when
/// the bridge passed none or one that is not UTF-8.
pub fn resource_loader_dispatch(has_observer: bool, event_name: Option<&str>, object: u64) -> (r:
    AssetResourceLoaderDispatch)
    ensures
        r == dispatch_spec(
            has_observer,
            match event_name {
                Some(n) => Some(n@),
                None => None,
            },
            object,
        ),
        object != 0 ==> (r is Deliver) != (r == AssetResourceLoaderDispatch::Reject { release: Some(object) }),
        r is Deliver ==> r->object == object && object != 0,
{
    let release = if object == 0 {
        None
    } else {
        Some(object)
    };
    if !has_observer || object == 0 {
        return AssetResourceLoaderDispatch::Reject { release };
    }
    match event_name {
        None => AssetResourceLoaderDispatch::Reject { release },
        Some(name) => match AssetResourceLoaderEventKind::from_event_name(name) {
            Some(kind) => AssetResourceLoaderDispatch::Deliver { kind, object },
            None => AssetResourceLoaderDispatch::Reject { release },
        },
    }
}

} // verus!
