//! Mark a failure branch of a `Result` or `Option` as believed unreachable.
//!
//! The library builds the diagnostic text that such a branch deserves when it
//! is reached after all: an explanation quoting the developer's justification
//! and, when link generation is enabled, a pre-filled, percent-encoded
//! bug-report URL against the configured issue tracker.

use vstd::prelude::*;

pub mod encoding;
pub mod utils;

verus! {

/// A binary-outcome value whose failure shape is asserted unreachable.
///
/// `cant_happen` passes the success payload through unchanged. The failure
/// shape is excluded by contract: reaching it is a bug, to be reported with
/// the diagnostic text of [`utils::cant_happen_fmt`], not an outcome to branch
/// on, so no verified caller can take that path.
pub trait CantHappen<T>: Sized {
    /// Whether this value took its success shape.
    spec fn is_success(self) -> bool;

    /// The payload carried on the success shape.
    spec fn success_value(self) -> T;

    /// Yields the payload of a value whose failure shape can't happen.
    fn cant_happen(self, why: &'static str) -> (r: T)
        requires
            self.is_success(),
        ensures
            r == self.success_value(),
    ;
}

impl<T, U> CantHappen<T> for Result<T, U> {
    open spec fn is_success(self) -> bool {
        self is Ok
    }

    open spec fn success_value(self) -> T {
        self->Ok_0
    }

    fn cant_happen(self, why: &'static str) -> (r: T) {
        match self {
            Ok(value) => value,
            Err(_) => vstd::pervasive::unreached(),
        }
    }
}

impl<T> CantHappen<T> for Option<T> {
    open spec fn is_success(self) -> bool {
        self is Some
    }

    open spec fn success_value(self) -> T {
        self->Some_0
    }

    fn cant_happen(self, why: &'static str) -> (r: T) {
        match self {
            Some(value) => value,
            None => vstd::pervasive::unreached(),
        }
    }
}

/// Process-wide configuration: the issue tracker's base URL, write-once.
///
/// The value starts absent; `try_set` stores a value exactly once and refuses
/// every later attempt, handing the rejected value back to the caller.
pub struct Registry {
    url: Option<String>,
}

/// The outcome of attempting to store `url` in a registry currently holding
/// `current`: the new contents, and whether the attempt succeeded.
pub open spec fn set_outcome(current: Option<Seq<char>>, url: Seq<char>) -> (Option<Seq<char>>, bool) {
    match current {
        Option::None => (Option::Some(url), true),
        Option::Some(kept) => (Option::Some(kept), false),
    }
}

impl View for Registry {
    type V = Option<Seq<char>>;

    closed spec fn view(&self) -> Option<Seq<char>> {
        match self.url {
            Option::None => Option::None,
            Option::Some(ref u) => Option::Some(u@),
        }
    }
}

impl Registry {
    /// A fresh registry, holding no tracker URL yet.
    pub fn new() -> (r: Registry)
        ensures
            r@ is None,
    {
        Registry { url: None }
    }

    /// Stores `url` if the registry is still empty; otherwise leaves the first
    /// value in place and returns `url` to the caller, as `set_outcome` says.
    pub fn try_set(&mut self, url: String) -> (r: Result<(), String>)
        ensures
            (final(self)@, r is Ok) == set_outcome(old(self)@, url@),
            r is Err ==> r == Result::<(), String>::Err(url),
    {
        match self.url {
            None => {
                self.url = Some(url);
                Ok(())
            },
            Some(_) => Err(url),
        }
    }

    /// The stored tracker URL, if one was ever set.
    pub fn get(&self) -> (r: Option<&String>)
        ensures
            match r {
                Option::Some(u) => self@ == Option::Some(u@),
                Option::None => self@ is None,
            },
    {
        self.url.as_ref()
    }
}

/// Stores the tracker base URL in a registry that has never been set.
///
/// Setting the URL twice is a programming error; the caller must not attempt
/// it, so an already-set registry is excluded here rather than tolerated.
pub fn set_repository_new_issue_url(registry: &mut Registry, url: &str)
    requires
        old(registry)@ is None,
    ensures
        final(registry)@ == Option::Some(url@),
{
    let owned: String = url.to_owned();
    let _ = registry.try_set(owned);
}

/// Write-once law: starting from an empty registry, the first `set` attempt
/// succeeds, the second is refused whatever it offers, and the value that
/// later reads observe is the first one.
pub proof fn lemma_registry_write_once(first: Seq<char>, second: Seq<char>)
    ensures
        ({
            let (held, first_ok) = set_outcome(Option::None, first);
            let (kept, second_ok) = set_outcome(held, second);
            first_ok && !second_ok && kept == Option::Some(first)
        }),
{
}

} // verus!
