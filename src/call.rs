use vstd::prelude::*;
use crate::error::{bytes_view, status_error, Error, LuaResult, LUA_OK};
use crate::thread::Thread;
use crate::value::ValueType;

verus! {

/// A call being staged: the callee and `nargs` arguments sit on top of the
/// stack, above `base` slots that belong to others.
///
/// The host pushes each argument and records it with [`Caller::arg`], then
/// runs the call and hands its outcome to one of the `call*` methods. A
/// caller that is given up instead is released with [`Caller::abandon`].
#[derive(Debug)]
pub struct Caller {
    base: usize,
    nargs: usize,
}

/// The stack depth after a call has returned: the results replace the callee
/// and its arguments, and a failed call leaves nothing behind once the host
/// has popped the error object.
pub open spec fn depth_after_call(c: Caller, status: i32, nresults: nat) -> nat {
    if status == LUA_OK {
        c.base_depth() + nresults
    } else {
        c.base_depth()
    }
}

/// The caller after `n` more arguments.
pub open spec fn with_args(c: Caller, n: nat) -> Caller
    decreases n,
{
    if n == 0 {
        c
    } else {
        with_args(c, (n - 1) as nat).spec_arg()
    }
}

impl Caller {
    /// The callee and its arguments fit on a stack whose depth is a `usize`.
    #[verifier::type_invariant]
    spec fn fits(&self) -> bool {
        self.base + self.nargs < usize::MAX
    }

    /// The stack depth below the callee.
    pub closed spec fn base_depth(&self) -> nat {
        self.base as nat
    }

    /// The number of arguments pushed so far.
    pub closed spec fn arg_count(&self) -> nat {
        self.nargs as nat
    }

    /// The stack depth while the call is staged.
    pub open spec fn depth(&self) -> nat {
        self.base_depth() + self.arg_count() + 1
    }

    /// The caller after one more argument.
    pub closed spec fn spec_arg(self) -> Caller {
        Caller { base: self.base, nargs: (self.nargs + 1) as usize }
    }

    /// The number of slots that abandoning the caller pops: the arguments
    /// and the callee.
    pub open spec fn abandon_count(&self) -> nat {
        self.arg_count() + 1
    }

    /// A caller for the function that sits at depth `base + 1`.
    pub(crate) fn on_stack(base: usize) -> (r: Caller)
        requires
            base < usize::MAX,
        ensures
            r.base_depth() == base,
            r.arg_count() == 0,
    {
        Caller { base, nargs: 0 }
    }

    /// Returns the number of slots below the callee.
    pub fn base(&self) -> (r: usize)
        ensures
            r == self.base_depth(),
    {
        self.base
    }

    /// Returns the number of arguments pushed so far.
    pub fn nargs(&self) -> (r: usize)
        ensures
            r == self.arg_count(),
    {
        self.nargs
    }

    /// Records one argument that the host has pushed above the others.
    pub fn arg(self, thread: &mut Thread) -> (r: Caller)
        requires
            old(thread)@ == self.depth(),
            self.depth() < usize::MAX,
        ensures
            r == self.spec_arg(),
            r.base_depth() == self.base_depth(),
            r.arg_count() == self.arg_count() + 1,
            final(thread)@ == r.depth(),
    {
        thread.set_top(self.base + self.nargs + 2);
        Caller { base: self.base, nargs: self.nargs + 1 }
    }

    /// Gives up the call before it is made. Returns the number of slots the
    /// host pops: the arguments and the callee, which leaves the stack as it
    /// was before the callee was pushed.
    pub fn abandon(self, thread: &mut Thread) -> (r: usize)
        requires
            old(thread)@ == self.depth(),
        ensures
            r == self.abandon_count(),
            final(thread)@ == self.base_depth(),
    {
        proof {
            use_type_invariant(&self);
        }
        thread.set_top(self.base);
        self.nargs + 1
    }

    /// Interprets a protected call that asked for all results. On success the
    /// host hands over the types of the values above `base`, in the order the
    /// callee returned them. On failure `msg` holds the error object's
    /// displayable form, and the host pops the error object.
    pub fn call(self, thread: &mut Thread, status: i32, results: Vec<ValueType>, msg: Option<Vec<u8>>)
        -> (r: LuaResult<ReturnValues>)
        requires
            old(thread)@ == self.depth(),
            self.base_depth() + results@.len() <= usize::MAX,
        ensures
            r is Ok <==> status == LUA_OK,
            r matches Ok(v) ==> v.base_depth() == self.base_depth() && v.types() == results@,
            r matches Err(e) ==> e@ == status_error(status, bytes_view(msg)),
            final(thread)@ == depth_after_call(self, status, results@.len()),
    {
        match Error::from_status(status, msg) {
            Ok(()) => {
                thread.set_top(self.base + results.len());
                Ok(ReturnValues { base: self.base, types: results })
            },
            Err(e) => {
                thread.set_top(self.base);
                Err(e)
            },
        }
    }

    /// Interprets a protected call that asked for exactly `nresults` results;
    /// on success `results` holds their types, padding included.
    pub fn calln(
        self,
        thread: &mut Thread,
        nresults: u32,
        status: i32,
        results: Vec<ValueType>,
        msg: Option<Vec<u8>>,
    ) -> (r: LuaResult<ReturnValues>)
        requires
            old(thread)@ == self.depth(),
            status == LUA_OK ==> results@.len() == nresults,
            self.base_depth() + results@.len() <= usize::MAX,
        ensures
            r is Ok <==> status == LUA_OK,
            r matches Ok(v) ==> v.base_depth() == self.base_depth() && v.types() == results@
                && v.types().len() == nresults,
            r matches Err(e) ==> e@ == status_error(status, bytes_view(msg)),
            final(thread)@ == depth_after_call(self, status, nresults as nat),
    {
        self.call(thread, status, results, msg)
    }

    /// Interprets an unprotected call that asked for all results. Such a call
    /// returns only when the callee did not fail.
    pub fn call_unprotected(self, thread: &mut Thread, results: Vec<ValueType>) -> (r: ReturnValues)
        requires
            old(thread)@ == self.depth(),
            self.base_depth() + results@.len() <= usize::MAX,
        ensures
            r.base_depth() == self.base_depth(),
            r.types() == results@,
            final(thread)@ == depth_after_call(self, LUA_OK, results@.len()),
    {
        thread.set_top(self.base + results.len());
        ReturnValues { base: self.base, types: results }
    }

    /// Interprets an unprotected call that asked for exactly `nresults`
    /// results.
    pub fn calln_unprotected(self, thread: &mut Thread, nresults: u32, results: Vec<ValueType>)
        -> (r: ReturnValues)
        requires
            old(thread)@ == self.depth(),
            results@.len() == nresults,
            self.base_depth() + results@.len() <= usize::MAX,
        ensures
            r.base_depth() == self.base_depth(),
            r.types() == results@,
            final(thread)@ == depth_after_call(self, LUA_OK, nresults as nat),
    {
        self.call_unprotected(thread, results)
    }
}

/// The values a completed call left on top of the stack, with their types in
/// the order the callee returned them. They stay on the stack until
/// [`ReturnValues::release`].
#[derive(Debug)]
pub struct ReturnValues {
    base: usize,
    types: Vec<ValueType>,
}

impl ReturnValues {
    /// The stack depth below the results.
    pub closed spec fn base_depth(&self) -> nat {
        self.base as nat
    }

    /// The types of the results, first result first.
    pub closed spec fn types(&self) -> Seq<ValueType> {
        self.types@
    }

    /// The stack depth while the results are held.
    pub open spec fn depth(&self) -> nat {
        self.base_depth() + self.types().len()
    }

    /// Returns the number of results.
    pub fn len(&self) -> (r: usize)
        ensures
            r == self.types().len(),
    {
        self.types.len()
    }

    /// Returns true if the call returned no value.
    pub fn is_empty(&self) -> (r: bool)
        ensures
            r == (self.types().len() == 0),
    {
        self.types.len() == 0
    }

    /// Returns the type of the result at `index`, or `None` if out of bounds.
    pub fn get(&self, index: usize) -> (r: Option<ValueType>)
        ensures
            index < self.types().len() ==> r == Some(self.types()[index as int]),
            index >= self.types().len() ==> r is None,
    {
        if index < self.types.len() {
            Some(self.types[index])
        } else {
            None
        }
    }

    /// Returns the type of the result at `index`, which must be in bounds.
    pub fn index(&self, index: usize) -> (r: ValueType)
        requires
            index < self.types().len(),
        ensures
            r == self.types()[index as int],
    {
        self.types[index]
    }

    /// Returns the stack index, counted from the top, of the result at
    /// `index`.
    pub fn stack_index(&self, index: usize) -> (r: i64)
        requires
            index < self.types().len(),
            self.types().len() <= i64::MAX,
        ensures
            r == index - self.types().len(),
    {
        index as i64 - self.types.len() as i64
    }

    /// Returns an iterator over the result types.
    pub fn iter<'b>(&'b self) -> (r: Iter<'b>)
        ensures
            r.wf(),
            r.remaining() == self.types(),
    {
        Iter { values: self, start: 0, end: self.types.len() }
    }

    /// Releases the results. Returns the number of slots the host pops, which
    /// leaves the stack as it was before the callee was pushed.
    pub fn release(self, thread: &mut Thread) -> (r: usize)
        requires
            old(thread)@ == self.depth(),
        ensures
            r == self.types().len(),
            final(thread)@ == self.base_depth(),
    {
        thread.set_top(self.base);
        self.types.len()
    }
}

/// An iterator over the types of a call's results, from both ends.
pub struct Iter<'b> {
    values: &'b ReturnValues,
    start: usize,
    end: usize,
}

impl<'b> Iter<'b> {
    /// The types not yet yielded, front first.
    pub closed spec fn remaining(&self) -> Seq<ValueType> {
        self.values.types@.subrange(self.start as int, self.end as int)
    }

    /// The iterator's internal bounds hold.
    pub closed spec fn wf(&self) -> bool {
        self.start <= self.end <= self.values.types@.len()
    }

    /// Returns the number of types not yet yielded.
    pub fn len(&self) -> (r: usize)
        requires
            self.wf(),
        ensures
            r == self.remaining().len(),
    {
        self.end - self.start
    }

    /// Yields the first type not yet yielded.
    pub fn next(&mut self) -> (r: Option<ValueType>)
        requires
            old(self).wf(),
        ensures
            final(self).wf(),
            old(self).remaining().len() == 0 ==> r is None && final(self).remaining() == old(
                self,
            ).remaining(),
            old(self).remaining().len() > 0 ==> r == Some(old(self).remaining()[0])
                && final(self).remaining() == old(self).remaining().drop_first(),
    {
        if self.start < self.end {
            let t = self.values.types[self.start];
            self.start = self.start + 1;
            Some(t)
        } else {
            None
        }
    }

    /// Yields the last type not yet yielded.
    pub fn next_back(&mut self) -> (r: Option<ValueType>)
        requires
            old(self).wf(),
        ensures
            final(self).wf(),
            old(self).remaining().len() == 0 ==> r is None && final(self).remaining() == old(
                self,
            ).remaining(),
            old(self).remaining().len() > 0 ==> r == Some(old(self).remaining().last())
                && final(self).remaining() == old(self).remaining().drop_last(),
    {
        if self.start < self.end {
            self.end = self.end - 1;
            Some(self.values.types[self.end])
        } else {
            None
        }
    }
}

/// Arguments leave a caller's base alone and add to its count.
pub proof fn lemma_with_args(c: Caller, n: nat)
    requires
        c.depth() + n <= usize::MAX,
    ensures
        with_args(c, n).base_depth() == c.base_depth(),
        with_args(c, n).arg_count() == c.arg_count() + n,
    decreases n,
{
    if n > 0 {
        lemma_with_args(c, (n - 1) as nat);
    }
}

/// Stack balance under success: a caller made on a stack of depth `d`, given
/// any number of arguments and then called successfully, leaves a stack of
/// depth `d` once its results are released.
pub proof fn lemma_balance_on_success(c: Caller, n: nat, nresults: nat)
    requires
        c.arg_count() == 0,
        c.depth() + n <= usize::MAX,
    ensures
        with_args(c, n).depth() == c.depth() + n,
        depth_after_call(with_args(c, n), LUA_OK, nresults) - nresults == c.base_depth(),
{
    lemma_with_args(c, n);
}

/// Stack balance under abandonment: a caller made on a stack of depth `d` and
/// given any number of arguments leaves a stack of depth `d` once abandoned.
pub proof fn lemma_balance_on_abandon(c: Caller, n: nat)
    requires
        c.arg_count() == 0,
        c.depth() + n <= usize::MAX,
    ensures
        with_args(c, n).depth() - with_args(c, n).abandon_count() == c.base_depth(),
{
    lemma_with_args(c, n);
}

/// Stack balance under failure: a caller made on a stack of depth `d`, given
/// any number of arguments and then called with a failure status, leaves a
/// stack of depth `d`, whatever the callee had returned.
pub proof fn lemma_balance_on_failure(c: Caller, n: nat, status: i32, nresults: nat)
    requires
        c.arg_count() == 0,
        c.depth() + n <= usize::MAX,
        status != LUA_OK,
    ensures
        depth_after_call(with_args(c, n), status, nresults) == c.base_depth(),
{
    lemma_with_args(c, n);
}

/// The types that repeated calls of [`Iter::next_back`] yield from `s`, in
/// the order they come.
pub open spec fn back_yields(s: Seq<ValueType>) -> Seq<ValueType>
    decreases s.len(),
{
    if s.len() == 0 {
        s
    } else {
        seq![s.last()] + back_yields(s.drop_last())
    }
}

/// Iterating from the back yields the types in reverse order.
pub proof fn lemma_back_yields_reverse(s: Seq<ValueType>)
    ensures
        back_yields(s) == s.reverse(),
    decreases s.len(),
{
    if s.len() > 0 {
        lemma_back_yields_reverse(s.drop_last());
        let r = s.drop_last().reverse();
        assert(back_yields(s) =~= s.reverse()) by {
            assert forall|i: int| 0 <= i < s.len() implies back_yields(s)[i] == s.reverse()[i] by {
                if i > 0 {
                    assert(back_yields(s)[i] == r[i - 1]);
                }
            }
        }
    }
}

} // verus!
