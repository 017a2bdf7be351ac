//! Deferred assets: a resource whose production (loading a font, rendering
//! text) is attempted lazily, once per frame while pending, and cached after
//! the first success. Production itself is outside work; the host attempts
//! it and hands the outcome in, and this module keeps the tri-state record
//! that makes the attempt happen at most once.

use vstd::prelude::*;

use crate::errors::GameError;

verus! {

/// The life of a deferred asset: `Pending` until the first production
/// attempt, then `Ready` with the cached value after a success, or
/// `Failed` for good after a failure. No retry: both outcomes are final.
pub enum AssetState<T> {
    Pending,
    Ready(T),
    Failed(GameError),
}

/// One per-frame step of an asset's life. While the asset is pending the
/// production outcome of this frame decides the next state; once resolved,
/// the state never changes again.
pub open spec fn step_asset<T>(s: AssetState<T>, production: Option<Result<T, GameError>>) -> AssetState<T> {
    match s {
        AssetState::Pending => match production {
            Some(Ok(v)) => AssetState::Ready(v),
            Some(Err(e)) => AssetState::Failed(e),
            None => AssetState::Pending,
        },
        _ => s,
    }
}

/// What a consumer observes of an asset: the cached value once ready,
/// nothing before.
pub open spec fn observed<T>(s: AssetState<T>) -> Option<T> {
    match s {
        AssetState::Ready(v) => Some(v),
        _ => None,
    }
}

/// Iterating the per-frame step `n` more times with no production supplied
/// (the producer is not run again).
pub open spec fn step_asset_many<T>(s: AssetState<T>, n: nat) -> AssetState<T>
    decreases n,
{
    if n == 0 {
        s
    } else {
        step_asset_many(step_asset(s, None), (n - 1) as nat)
    }
}

/// A deferred asset: owns the pending-or-resolved record of one resource.
pub struct DeferredAsset<T> {
    state: AssetState<T>,
}

impl<T> View for DeferredAsset<T> {
    type V = AssetState<T>;

    closed spec fn view(&self) -> AssetState<T> {
        self.state
    }
}

impl<T> DeferredAsset<T> {
    /// A fresh asset whose production has not been attempted yet.
    pub fn new() -> (a: Self)
        ensures
            a@ is Pending,
    {
        DeferredAsset { state: AssetState::Pending }
    }

    /// Whether this frame must attempt production: true exactly while the
    /// asset is pending, so the producer runs at most once over all frames.
    pub fn needs_production(&self) -> (r: bool)
        ensures
            r <==> self@ is Pending,
    {
        match self.state {
            AssetState::Pending => true,
            _ => false,
        }
    }

    /// Record this frame's production outcome, if one was attempted.
    /// Production is only ever attempted while the asset is pending, so a
    /// resolved asset is never touched and the cache is kept as it is; a
    /// pending asset whose outcome has not arrived yet simply stays pending.
    pub fn poll(&mut self, production: Option<Result<T, GameError>>)
        requires
            production is Some ==> old(self)@ is Pending,
        ensures
            final(self)@ == step_asset(old(self)@, production),
    {
        if let Some(outcome) = production {
            match outcome {
                Ok(v) => {
                    self.state = AssetState::Ready(v);
                },
                Err(e) => {
                    self.state = AssetState::Failed(e);
                },
            }
        }
    }

    /// Whether the cached value is available.
    pub fn is_ready(&self) -> (r: bool)
        ensures
            r <==> self@ is Ready,
    {
        match self.state {
            AssetState::Ready(_) => true,
            _ => false,
        }
    }

    /// The cached value, without re-evaluating anything.
    pub fn value(&self) -> (r: &T)
        requires
            self@ is Ready,
        ensures
            self@ == AssetState::Ready(*r),
            observed(self@) == Some(*r),
    {
        match &self.state {
            AssetState::Ready(v) => v,
            _ => vstd::pervasive::unreached(),
        }
    }

    /// The error of a failed asset, surfaced again on every frame so the
    /// host can decide to abort or to log; `None` while not failed.
    pub fn error(&self) -> (r: Option<GameError>)
        ensures
            (r is Some) <==> (self@ is Failed),
            self@ matches AssetState::Failed(e) ==> r == Some(e),
    {
        match &self.state {
            AssetState::Failed(e) => Some(*e),
            _ => None,
        }
    }
}

/// Law: an asset whose producer succeeds on its first evaluation caches that
/// value for good. After the success the producer is never needed again, and
/// any number of further frames each observe the same cached value.
pub proof fn lemma_first_success_caches<T>(v: T, n: nat)
    ensures
        step_asset(AssetState::Pending, Some(Ok(v))) == AssetState::<T>::Ready(v),
        !(step_asset_many(AssetState::<T>::Ready(v), n) is Pending),
        step_asset_many(AssetState::<T>::Ready(v), n) == AssetState::<T>::Ready(v),
        observed(step_asset_many(AssetState::<T>::Ready(v), n)) == Some(v),
    decreases n,
{
    if n > 0 {
        lemma_first_success_caches(v, (n - 1) as nat);
    }
}

/// Law: failure is terminal. Once an asset has failed, every further frame
/// leaves it failed with the same error and observes no value.
pub proof fn lemma_failure_is_permanent<T>(e: GameError, n: nat)
    ensures
        step_asset_many(AssetState::<T>::Failed(e), n) == AssetState::<T>::Failed(e),
        observed(step_asset_many(AssetState::<T>::Failed(e), n)) == None::<T>,
    decreases n,
{
    if n > 0 {
        lemma_failure_is_permanent::<T>(e, (n - 1) as nat);
    }
}

} // verus!
