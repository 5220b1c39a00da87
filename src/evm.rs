//! The capabilities that the tracers consume from an execution engine.
use vstd::prelude::*;

verus! {

/// Conversion of a transaction-like value into the engine's transaction representation.
pub trait IntoTxEnv<T> {
    /// The transaction this value converts into.
    spec fn tx_env(&self) -> T;

    fn into_tx_env(self) -> (r: T)
        ensures
            r == self.tx_env(),
    ;
}

impl<T> IntoTxEnv<T> for T {
    open spec fn tx_env(&self) -> T {
        *self
    }

    fn into_tx_env(self) -> (r: T) {
        self
    }
}

/// An execution unit that runs one transaction at a time with an inspector attached.
pub trait Evm: Sized {
    /// The engine's transaction representation.
    type Tx;
    /// The engine's execution error.
    type Error;
    /// What a successful execution yields (result and state changes).
    type Output;
    /// The observer fed by the engine while inspection is enabled.
    type Inspector;

    /// The live inspector.
    spec fn inspector(&self) -> Self::Inspector;

    /// Whether the engine feeds observations to the live inspector.
    spec fn inspector_enabled(&self) -> bool;

    /// This engine with its live inspector replaced by `inspector`, all else kept.
    spec fn with_inspector(self, inspector: Self::Inspector) -> Self;

    /// This engine with inspection switched to `enabled`, all else kept.
    spec fn with_inspector_enabled(self, enabled: bool) -> Self;

    /// What one call of `transact` may do: from `pre`, running `tx` returns `res` and leaves `post`.
    spec fn transacted(
        pre: Self,
        tx: Self::Tx,
        res: Result<Self::Output, Self::Error>,
        post: Self,
    ) -> bool;

    /// Mutable access to the live inspector slot.
    fn inspector_mut(&mut self) -> (r: &mut Self::Inspector)
        ensures
            *r == old(self).inspector(),
            final(self).inspector() == *final(r),
            final(self).inspector_enabled() == old(self).inspector_enabled(),
            *final(self) == old(self).with_inspector(*final(r)),
            *final(r) == *r ==> *final(self) == *old(self),
    ;

    /// Runs one transaction with the live inspector attached.
    fn transact<T: IntoTxEnv<Self::Tx>>(&mut self, tx: T) -> (r: Result<Self::Output, Self::Error>)
        ensures
            Self::transacted(*old(self), tx.tx_env(), r, *final(self)),
            final(self).inspector_enabled() == old(self).inspector_enabled(),
    ;

    /// Lets the engine feed observations to the live inspector.
    fn enable_inspector(&mut self)
        ensures
            final(self).inspector_enabled(),
            final(self).inspector() == old(self).inspector(),
            *final(self) == old(self).with_inspector_enabled(true),
    ;

    /// Stops the engine from feeding observations to the live inspector.
    fn disable_inspector(&mut self)
        ensures
            !final(self).inspector_enabled(),
            final(self).inspector() == old(self).inspector(),
            *final(self) == old(self).with_inspector_enabled(false),
    ;
}

/// A transaction of a block whose engine takes `Tx`; it is copied to reach the projection.
pub trait ExecutableTx<Tx>: IntoTxEnv<Tx> + Copy {
}

/// An execution unit that runs a block: pre-execution changes, transactions, post-execution changes.
pub trait BlockExecutor: Sized {
    /// The engine running the block's transactions.
    type Evm: Evm;
    /// The engine's block execution error.
    type Error;

    /// The engine this executor runs on.
    spec fn evm(&self) -> Self::Evm;

    /// This executor with its engine replaced by `evm`, all else kept.
    spec fn with_evm(self, evm: Self::Evm) -> Self;

    /// What one call of `apply_pre_execution_changes` may do: from `pre`, it returns `res`
    /// and leaves `post`.
    spec fn pre_execution_applied(pre: Self, res: Result<(), Self::Error>, post: Self) -> bool;

    /// What one call of `execute_transaction` may do: from `pre`, running `tx` returns `res`
    /// (the gas used, or an error) and leaves `post`.
    spec fn executed(
        pre: Self,
        tx: <Self::Evm as Evm>::Tx,
        res: Result<u64, Self::Error>,
        post: Self,
    ) -> bool;

    /// What one call of `apply_post_execution_changes` may do: from `pre`, it returns `res`
    /// and leaves `post`.
    spec fn post_execution_applied(pre: Self, res: Result<(), Self::Error>, post: Self) -> bool;

    /// Mutable access to the engine.
    fn evm_mut(&mut self) -> (r: &mut Self::Evm)
        ensures
            *r == old(self).evm(),
            final(self).evm() == *final(r),
            *final(self) == old(self).with_evm(*final(r)),
            *final(r) == *r ==> *final(self) == *old(self),
    ;

    /// Applies the chain-level changes due before the block's transactions.
    /// With inspection disabled the inspector is left as it was.
    fn apply_pre_execution_changes(&mut self) -> (r: Result<(), Self::Error>)
        ensures
            Self::pre_execution_applied(*old(self), r, *final(self)),
            final(self).evm().inspector_enabled() == old(self).evm().inspector_enabled(),
            !old(self).evm().inspector_enabled() ==> final(self).evm().inspector() == old(
                self,
            ).evm().inspector(),
    ;

    /// Runs one transaction of the block and returns the gas it used.
    fn execute_transaction<T: ExecutableTx<<Self::Evm as Evm>::Tx>>(&mut self, tx: T) -> (r: Result<u64, Self::Error>)
        ensures
            final(self).evm().inspector_enabled() == old(self).evm().inspector_enabled(),
            Self::executed(*old(self), tx.tx_env(), r, *final(self)),
    ;

    /// Applies the chain-level changes due after the block's transactions.
    /// With inspection disabled the inspector is left as it was.
    fn apply_post_execution_changes(&mut self) -> (r: Result<(), Self::Error>)
        ensures
            Self::post_execution_applied(*old(self), r, *final(self)),
            final(self).evm().inspector_enabled() == old(self).evm().inspector_enabled(),
            !old(self).evm().inspector_enabled() ==> final(self).evm().inspector() == old(
                self,
            ).evm().inspector(),
    ;
}

} // verus!
