//! Tracers that harvest the inspector after each transaction.
use crate::evm::{BlockExecutor, Evm, ExecutableTx, IntoTxEnv};
use vstd::pervasive::strictly_cloned;
use vstd::prelude::*;

verus! {

/// Runs single transactions and returns each one's inspector state.
#[derive(Debug, Clone)]
pub struct TxTracer<E: Evm> {
    evm: E,
    fused_inspector: E::Inspector,
}

/// Output of tracing a transaction.
#[derive(Debug, Clone)]
pub struct TraceOutput<R, I> {
    /// What the engine returned for the transaction.
    pub result: R,
    /// Inspector state at the end of the execution.
    pub inspector: I,
}

impl<E: Evm> TxTracer<E> where E::Inspector: Clone {
    /// The execution unit held by the tracer.
    pub closed spec fn evm(&self) -> E {
        self.evm
    }

    /// The template that every reset copies.
    pub closed spec fn fused_inspector(&self) -> E::Inspector {
        self.fused_inspector
    }

    /// Creates a tracer around `evm`; the template is a copy of its current inspector.
    pub fn new(mut evm: E) -> (r: Self)
        ensures
            r.evm() == evm,
            strictly_cloned(evm.inspector(), r.fused_inspector()),
    {
        let fused_inspector = evm.inspector_mut().clone();
        Self { fused_inspector, evm }
    }

    /// Executes a transaction, and returns its outcome along with the inspector state.
    ///
    /// Whatever the outcome, the live inspector is then a fresh copy of the template.
    pub fn trace<T: IntoTxEnv<E::Tx>>(&mut self, tx: T) -> (r: Result<
        TraceOutput<E::Output, E::Inspector>,
        E::Error,
    >)
        ensures
            final(self).fused_inspector() == old(self).fused_inspector(),
            strictly_cloned(old(self).fused_inspector(), final(self).evm().inspector()),
            final(self).evm().inspector_enabled() == old(self).evm().inspector_enabled(),
            exists|res: Result<E::Output, E::Error>, post: E|
                {
                    &&& #[trigger] E::transacted(old(self).evm(), tx.tx_env(), res, post)
                    &&& final(self).evm() == post.with_inspector(final(self).evm().inspector())
                    &&& match r {
                        Ok(out) => res == Ok::<E::Output, E::Error>(out.result) && out.inspector
                            == post.inspector(),
                        Err(e) => res == Err::<E::Output, E::Error>(e),
                    }
                },
    {
        let result = self.evm.transact(tx);
        let ghost pre = old(self).evm();
        let ghost post = self.evm;
        let ghost res = result;
        assert(E::transacted(pre, tx.tx_env(), res, post));
        let mut inspector = self.fused_inspector.clone();
        core::mem::swap(self.evm.inspector_mut(), &mut inspector);
        match result {
            Ok(result) => {
                let out = TraceOutput { result, inspector };
                assert(res == Ok::<E::Output, E::Error>(out.result) && out.inspector
                    == post.inspector() && self.evm == post.with_inspector(self.evm.inspector()));
                Ok(out)
            },
            Err(e) => Err(e),
        }
    }
}

/// Runs whole blocks and hands each transaction's inspector state to a projection.
pub struct BlockTracer<E: BlockExecutor> {
    executor: E,
    fused_inspector: <E::Evm as Evm>::Inspector,
}

/// One call into a block executor: the executor before it, what it returned, and the executor
/// right after it.
pub struct Step<E, R> {
    /// The executor when the call began.
    pub pre: E,
    /// What the call returned.
    pub res: R,
    /// The executor when the call returned.
    pub post: E,
}

impl<E: BlockExecutor> BlockTracer<E> where <E::Evm as Evm>::Inspector: Clone {
    /// The block execution unit held by the tracer.
    pub closed spec fn executor(&self) -> E {
        self.executor
    }

    /// The template that every reset copies.
    pub closed spec fn fused_inspector(&self) -> <E::Evm as Evm>::Inspector {
        self.fused_inspector
    }

    /// `executor` with inspection on its engine switched to `enabled`, all else kept.
    pub open spec fn set_enabled(executor: E, enabled: bool) -> E {
        executor.with_evm(executor.evm().with_inspector_enabled(enabled))
    }

    /// `executor` with the live inspector of its engine replaced by `inspector`, all else kept.
    pub open spec fn set_inspector(executor: E, inspector: <E::Evm as Evm>::Inspector) -> E {
        executor.with_evm(executor.evm().with_inspector(inspector))
    }

    /// `next` is `prev` after a harvest: only the live inspector was replaced, by a fresh copy
    /// of `fused`.
    pub open spec fn harvested(fused: <E::Evm as Evm>::Inspector, prev: E, next: E) -> bool {
        &&& strictly_cloned(fused, next.evm().inspector())
        &&& next == Self::set_inspector(prev, next.evm().inspector())
    }

    /// The transaction at `i` started isolated: inspection was enabled, and the live inspector
    /// was `first` for the first transaction and a fresh copy of `fused` for every later one.
    pub open spec fn isolated_start(
        fused: <E::Evm as Evm>::Inspector,
        first: <E::Evm as Evm>::Inspector,
        i: int,
        pre: E,
    ) -> bool {
        &&& pre.evm().inspector_enabled()
        &&& if i == 0 {
            pre.evm().inspector() == first
        } else {
            strictly_cloned(fused, pre.evm().inspector())
        }
    }

    /// The transactions of `runs` ran once each, in order, each isolated, and all but the last
    /// succeeded; each run after the first started from the state the previous run left, with
    /// only the harvest in between.
    pub open spec fn tx_runs<T: ExecutableTx<<E::Evm as Evm>::Tx>>(
        fused: <E::Evm as Evm>::Inspector,
        first: <E::Evm as Evm>::Inspector,
        txs: Seq<T>,
        runs: Seq<Step<E, Result<u64, E::Error>>>,
    ) -> bool {
        &&& runs.len() <= txs.len()
        &&& forall|i: int|
            0 <= i < runs.len() ==> #[trigger] Self::isolated_start(fused, first, i, runs[i].pre)
                && E::executed(runs[i].pre, txs[i].tx_env(), runs[i].res, runs[i].post)
        &&& forall|i: int| 0 <= i < runs.len() - 1 ==> (#[trigger] runs[i]).res is Ok
        &&& forall|i: int|
            0 <= i < runs.len() - 1 ==> Self::harvested(fused, runs[i].post, #[trigger] runs[i
                + 1].pre)
    }

    /// Output `i` is the projection of the transaction at `i`, the gas its run used, and the
    /// inspector that run left.
    pub open spec fn projected<T, O, F: Fn(T, u64, <E::Evm as Evm>::Inspector) -> O>(
        txs: Seq<T>,
        runs: Seq<Step<E, Result<u64, E::Error>>>,
        f: F,
        outputs: Seq<O>,
    ) -> bool {
        &&& outputs.len() == txs.len()
        &&& forall|i: int|
            0 <= i < outputs.len() ==> #[trigger] runs[i].res is Ok && f.ensures(
                (txs[i], runs[i].res->Ok_0, runs[i].post.evm().inspector()),
                outputs[i],
            )
    }

    /// The post-execution call `pp` came right after the transactions: it started from the state
    /// the last run left (or, with no transaction, the state after the pre-execution call) with
    /// the inspector harvested and inspection disabled, and so left that inspector as it was:
    /// a fresh copy of `fused`, or `first` for an empty block.
    pub open spec fn post_start(
        fused: <E::Evm as Evm>::Inspector,
        first: <E::Evm as Evm>::Inspector,
        pre_phase: Step<E, Result<(), E::Error>>,
        runs: Seq<Step<E, Result<u64, E::Error>>>,
        pp: Step<E, Result<(), E::Error>>,
    ) -> bool {
        &&& !pp.pre.evm().inspector_enabled()
        &&& pp.post.evm().inspector() == pp.pre.evm().inspector()
        &&& if runs.len() == 0 {
            &&& pp.pre == Self::set_enabled(Self::set_enabled(pre_phase.post, true), false)
            &&& pp.pre.evm().inspector() == first
        } else {
            &&& strictly_cloned(fused, pp.pre.evm().inspector())
            &&& pp.pre == Self::set_enabled(
                Self::set_inspector(runs.last().post, pp.pre.evm().inspector()),
                false,
            )
        }
    }

    /// How tracing a block held by `start` with template `fused`, transactions `txs` and
    /// projection `f` came to return `r`: the pre-execution call, the transaction runs, and the
    /// post-execution call (if reached), each starting where the previous one ended. The first
    /// failing call ends the block with its error; with no failure there is one output per
    /// transaction, in order.
    pub open spec fn block_run<T: ExecutableTx<<E::Evm as Evm>::Tx>, O, F: Fn(
        T,
        u64,
        <E::Evm as Evm>::Inspector,
    ) -> O>(
        fused: <E::Evm as Evm>::Inspector,
        start: E,
        txs: Seq<T>,
        f: F,
        pre_phase: Step<E, Result<(), E::Error>>,
        runs: Seq<Step<E, Result<u64, E::Error>>>,
        post_phase: Option<Step<E, Result<(), E::Error>>>,
        r: Result<Vec<O>, E::Error>,
    ) -> bool {
        let first = start.evm().inspector();
        &&& pre_phase.pre == Self::set_enabled(start, false)
        &&& !pre_phase.pre.evm().inspector_enabled()
        &&& pre_phase.pre.evm().inspector() == first
        &&& E::pre_execution_applied(pre_phase.pre, pre_phase.res, pre_phase.post)
        &&& match pre_phase.res {
            Err(e) => runs.len() == 0 && post_phase is None && r == Err::<Vec<O>, E::Error>(e),
            Ok(_) => {
                &&& Self::tx_runs(fused, first, txs, runs)
                &&& runs.len() > 0 ==> runs[0].pre == Self::set_enabled(pre_phase.post, true)
                &&& if runs.len() > 0 && runs.last().res is Err {
                    &&& post_phase is None
                    &&& r == Err::<Vec<O>, E::Error>(runs.last().res->Err_0)
                } else {
                    &&& runs.len() == txs.len()
                    &&& post_phase matches Some(pp) && {
                        &&& Self::post_start(fused, first, pre_phase, runs, pp)
                        &&& E::post_execution_applied(pp.pre, pp.res, pp.post)
                        &&& match pp.res {
                            Err(e) => r == Err::<Vec<O>, E::Error>(e),
                            Ok(_) => r matches Ok(outputs) && Self::projected(
                                txs,
                                runs,
                                f,
                                outputs@,
                            ),
                        }
                    }
                }
            },
        }
    }

    /// Each output of a successful block belongs to its own transaction, in order: output `i`
    /// projects the transaction at `i` and the inspector that its run left, and that run started
    /// from a fresh copy of the template (the first one from the inspector held before the
    /// block), never from what an earlier transaction left.
    pub proof fn lemma_isolation<T: ExecutableTx<<E::Evm as Evm>::Tx>, O, F: Fn(
        T,
        u64,
        <E::Evm as Evm>::Inspector,
    ) -> O>(
        fused: <E::Evm as Evm>::Inspector,
        start: E,
        txs: Seq<T>,
        f: F,
        pre_phase: Step<E, Result<(), E::Error>>,
        runs: Seq<Step<E, Result<u64, E::Error>>>,
        post_phase: Option<Step<E, Result<(), E::Error>>>,
        outputs: Vec<O>,
    )
        requires
            Self::block_run(fused, start, txs, f, pre_phase, runs, post_phase, Ok(outputs)),
        ensures
            outputs.len() == txs.len(),
            runs.len() == txs.len(),
            forall|i: int|
                0 <= i < txs.len() ==> {
                    &&& (#[trigger] runs[i]).pre.evm().inspector_enabled()
                    &&& i == 0 ==> runs[i].pre.evm().inspector() == start.evm().inspector()
                    &&& i > 0 ==> strictly_cloned(fused, runs[i].pre.evm().inspector())
                    &&& E::executed(runs[i].pre, txs[i].tx_env(), runs[i].res, runs[i].post)
                    &&& runs[i].res is Ok
                    &&& f.ensures(
                        (txs[i], runs[i].res->Ok_0, runs[i].post.evm().inspector()),
                        outputs@[i],
                    )
                },
    {
        assert forall|i: int| 0 <= i < txs.len() implies Self::isolated_start(
            fused,
            start.evm().inspector(),
            i,
            (#[trigger] runs[i]).pre,
        ) by {}
    }

    /// Pre- and post-execution changes are never observed: both ran with inspection disabled,
    /// the first transaction starts from the very inspector held before the block, and the
    /// post-execution call leaves the live inspector a fresh copy of the template (the held
    /// inspector for an empty block).
    pub proof fn lemma_phases_silent<T: ExecutableTx<<E::Evm as Evm>::Tx>, O, F: Fn(
        T,
        u64,
        <E::Evm as Evm>::Inspector,
    ) -> O>(
        fused: <E::Evm as Evm>::Inspector,
        start: E,
        txs: Seq<T>,
        f: F,
        pre_phase: Step<E, Result<(), E::Error>>,
        runs: Seq<Step<E, Result<u64, E::Error>>>,
        post_phase: Option<Step<E, Result<(), E::Error>>>,
        r: Result<Vec<O>, E::Error>,
    )
        requires
            Self::block_run(fused, start, txs, f, pre_phase, runs, post_phase, r),
        ensures
            !pre_phase.pre.evm().inspector_enabled(),
            pre_phase.pre.evm().inspector() == start.evm().inspector(),
            runs.len() > 0 ==> runs[0].pre.evm().inspector() == start.evm().inspector(),
            post_phase matches Some(pp) ==> {
                &&& !pp.pre.evm().inspector_enabled()
                &&& pp.post.evm().inspector() == pp.pre.evm().inspector()
                &&& txs.len() == 0 ==> pp.post.evm().inspector() == start.evm().inspector()
                &&& txs.len() > 0 ==> strictly_cloned(fused, pp.post.evm().inspector())
            },
    {
        if runs.len() > 0 {
            assert(Self::isolated_start(fused, start.evm().inspector(), 0, runs[0].pre));
        }
    }

    /// A block is all or nothing: it returns outputs exactly when the pre-execution call, every
    /// transaction and the post-execution call succeeded; and a failing transaction is the last
    /// one run, whose error the block returns.
    pub proof fn lemma_all_or_nothing<T: ExecutableTx<<E::Evm as Evm>::Tx>, O, F: Fn(
        T,
        u64,
        <E::Evm as Evm>::Inspector,
    ) -> O>(
        fused: <E::Evm as Evm>::Inspector,
        start: E,
        txs: Seq<T>,
        f: F,
        pre_phase: Step<E, Result<(), E::Error>>,
        runs: Seq<Step<E, Result<u64, E::Error>>>,
        post_phase: Option<Step<E, Result<(), E::Error>>>,
        r: Result<Vec<O>, E::Error>,
    )
        requires
            Self::block_run(fused, start, txs, f, pre_phase, runs, post_phase, r),
        ensures
            r is Ok <==> {
                &&& pre_phase.res is Ok
                &&& runs.len() == txs.len()
                &&& forall|i: int| 0 <= i < runs.len() ==> (#[trigger] runs[i]).res is Ok
                &&& post_phase matches Some(pp) && pp.res is Ok
            },
            forall|k: int|
                0 <= k < runs.len() && (#[trigger] runs[k]).res is Err ==> k == runs.len() - 1
                    && r == Err::<Vec<O>, E::Error>(runs[k].res->Err_0),
    {
        if pre_phase.res is Ok && !(runs.len() > 0 && runs.last().res is Err) {
            assert forall|i: int| 0 <= i < runs.len() implies (#[trigger] runs[i]).res is Ok by {
                if i < runs.len() - 1 {
                    assert(runs[i].res is Ok);
                }
            }
        }
    }

    /// Creates a tracer around `executor`; the template is a copy of its engine's inspector.
    pub fn new(mut executor: E) -> (r: Self)
        ensures
            r.executor() == executor,
            strictly_cloned(executor.evm().inspector(), r.fused_inspector()),
    {
        let fused_inspector = executor.evm_mut().inspector_mut().clone();
        Self { fused_inspector, executor }
    }

    /// Swaps the live inspector for a fresh copy of the template and returns the one it held.
    fn fuse_inspector(&mut self) -> (r: <E::Evm as Evm>::Inspector)
        ensures
            r == old(self).executor().evm().inspector(),
            Self::harvested(old(self).fused_inspector(), old(self).executor(), final(self).executor()),
            final(self).executor().evm().inspector_enabled() == old(
                self,
            ).executor().evm().inspector_enabled(),
            final(self).fused_inspector() == old(self).fused_inspector(),
    {
        let mut inspector = self.fused_inspector.clone();
        core::mem::swap(self.executor.evm_mut().inspector_mut(), &mut inspector);
        inspector
    }

    /// Executes a block with the configured inspector and applies `f` to each transaction
    /// result.
    ///
    /// Pre- and post-execution changes run with inspection disabled, so the first transaction
    /// starts from the inspector held before them; every later one starts from a fresh copy of
    /// the template. The first engine call that fails ends the block with its error and no
    /// output; otherwise there is one output per transaction, in order (see [`Self::block_run`]).
    pub fn trace_block<T: ExecutableTx<<E::Evm as Evm>::Tx>, O, F: Fn(
        T,
        u64,
        <E::Evm as Evm>::Inspector,
    ) -> O>(self, transactions: Vec<T>, f: F) -> (r: Result<Vec<O>, E::Error>)
        requires
            forall|tx: T, gas: u64, insp: <E::Evm as Evm>::Inspector| #[trigger]
                f.requires((tx, gas, insp)),
        ensures
            exists|
                pre_phase: Step<E, Result<(), E::Error>>,
                runs: Seq<Step<E, Result<u64, E::Error>>>,
                post_phase: Option<Step<E, Result<(), E::Error>>>,
            |
                Self::block_run(
                    self.fused_inspector(),
                    self.executor(),
                    transactions@,
                    f,
                    pre_phase,
                    runs,
                    post_phase,
                    r,
                ),
    {
        let ghost fused = self.fused_inspector();
        let ghost start = self.executor();
        let ghost first = start.evm().inspector();
        let mut tracer = self;
        let ghost txs = transactions@;

        // Apply pre-execution changes with the inspector disabled.
        tracer.executor.evm_mut().disable_inspector();
        let ghost before_pre = tracer.executor;
        let pre_res = tracer.executor.apply_pre_execution_changes();
        let ghost pre_phase = Step { pre: before_pre, res: pre_res, post: tracer.executor };
        if let Err(e) = pre_res {
            let r = Err(e);
            assert(Self::block_run(fused, start, txs, f, pre_phase, Seq::empty(), None, r));
            return r;
        }
        tracer.executor.evm_mut().enable_inspector();

        let mut outputs: Vec<O> = Vec::new();
        let ghost mut runs: Seq<Step<E, Result<u64, E::Error>>> = Seq::empty();
        let n = transactions.len();
        let mut i: usize = 0;
        while i < n
            invariant
                n == transactions.len(),
                txs == transactions@,
                fused == self.fused_inspector(),
                start == self.executor(),
                first == start.evm().inspector(),
                i <= n,
                outputs.len() == i,
                runs.len() == i,
                tracer.fused_inspector == fused,
                tracer.executor.evm().inspector_enabled(),
                i == 0 ==> tracer.executor == Self::set_enabled(pre_phase.post, true),
                i == 0 ==> tracer.executor.evm().inspector() == first,
                i > 0 ==> Self::harvested(fused, runs.last().post, tracer.executor),
                forall|tx: T, gas: u64, insp: <E::Evm as Evm>::Inspector| #[trigger]
                    f.requires((tx, gas, insp)),
                pre_phase.pre == Self::set_enabled(start, false),
                !pre_phase.pre.evm().inspector_enabled(),
                pre_phase.pre.evm().inspector() == first,
                E::pre_execution_applied(pre_phase.pre, pre_phase.res, pre_phase.post),
                pre_phase.res is Ok,
                Self::tx_runs(fused, first, txs, runs),
                runs.len() > 0 ==> runs[0].pre == Self::set_enabled(pre_phase.post, true),
                forall|j: int| 0 <= j < i ==> (#[trigger] runs[j]).res is Ok,
                Self::projected(txs.take(i as int), runs, f, outputs@),
            decreases n - i,
        {
            let tx = transactions[i];
            let ghost pre = tracer.executor;
            let ghost prev_runs = runs;
            let res = tracer.executor.execute_transaction(tx);
            let ghost step = Step { pre, res, post: tracer.executor };
            proof {
                runs = runs.push(step);
                assert(Self::isolated_start(fused, first, i as int, pre));
                assert forall|j: int| 0 <= j < runs.len() - 1 implies Self::harvested(
                    fused,
                    runs[j].post,
                    #[trigger] runs[j + 1].pre,
                ) by {
                    if j + 1 < i {
                        assert(prev_runs[j + 1] == runs[j + 1]);
                    }
                }
            }
            let gas_used = match res {
                Ok(g) => g,
                Err(e) => {
                    let r = Err(e);
                    assert(Self::block_run(fused, start, transactions@, f, pre_phase, runs, None, r));
                    return r;
                },
            };
            let inspector = tracer.fuse_inspector();
            let out = f(tx, gas_used, inspector);
            outputs.push(out);
            i = i + 1;
            assert(txs.take(i as int) =~= txs.take(i - 1).push(tx));
        }
        assert(txs.take(n as int) =~= txs);

        // Apply post-execution changes with the inspector disabled.
        let ghost ready = tracer.executor;
        tracer.executor.evm_mut().disable_inspector();
        let ghost before_post = tracer.executor;
        let post_res = tracer.executor.apply_post_execution_changes();
        let ghost post_phase = Step { pre: before_post, res: post_res, post: tracer.executor };
        proof {
            if n > 0 {
                assert(ready == Self::set_inspector(runs.last().post, ready.evm().inspector()));
            }
        }
        let r = match post_res {
            Err(e) => Err(e),
            Ok(()) => Ok(outputs),
        };
        assert(Self::block_run(fused, start, txs, f, pre_phase, runs, Some(post_phase), r));
        r
    }
}

} // verus!
