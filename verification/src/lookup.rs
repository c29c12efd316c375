use vstd::prelude::*;

use backtrace::{Backtrace, BacktraceFrame};
use std::collections::HashMap;
use vstd::string::StringExecFns;

verus! {

broadcast use vstd::std_specs::hash::group_hash_axioms;

/// Lookup error kinds.
#[derive(Clone, Copy, Debug, PartialEq, Eq, Structural)]
pub enum Error {
    /// Returned if a trace id is not present in the lookup structure.
    IdNotFound,
    /// Returned if a stack frame cannot be resolved from the store.
    FrameNotFound,
}

/// Declares the backtrace crate's `Backtrace` so it can cross this
/// module's boundary; its insides stay opaque.
#[verifier::external_type_specification]
#[verifier::external_body]
pub struct ExBacktrace(Backtrace);

/// Declares the backtrace crate's `BacktraceFrame`, the opaque frame that
/// `StackFrameInfo::new` reads its plain values from.
#[verifier::external_type_specification]
#[verifier::external_body]
pub struct ExBacktraceFrame(BacktraceFrame);

/// Stores information about one stack frame, as plain values.
#[derive(Debug, PartialEq, Eq)]
pub struct StackFrameInfo {
    /// Name of the function called.
    pub callee_name: String,
    /// Name of the file where the callee is defined.
    pub callee_file: String,
    /// The line number in the file where the callee is defined.
    pub callee_lineno: u32,
    /// The column index in the file where the callee is defined.
    pub callee_col: u32,
}

/// The mathematical image of a `StackFrameInfo`.
pub ghost struct StackFrameInfoV {
    pub callee_name: Seq<char>,
    pub callee_file: Seq<char>,
    pub callee_lineno: u32,
    pub callee_col: u32,
}

impl View for StackFrameInfo {
    type V = StackFrameInfoV;

    open spec fn view(&self) -> StackFrameInfoV {
        StackFrameInfoV {
            callee_name: self.callee_name@,
            callee_file: self.callee_file@,
            callee_lineno: self.callee_lineno,
            callee_col: self.callee_col,
        }
    }
}

impl DeepView for StackFrameInfo {
    type V = StackFrameInfoV;

    open spec fn deep_view(&self) -> StackFrameInfoV {
        self.view()
    }
}

impl Clone for StackFrameInfo {
    fn clone(&self) -> (r: Self)
        ensures
            r@ == self@,
    {
        StackFrameInfo {
            callee_name: self.callee_name.clone(),
            callee_file: self.callee_file.clone(),
            callee_lineno: self.callee_lineno,
            callee_col: self.callee_col,
        }
    }
}

/// The decimal digit `d` as a character.
pub open spec fn dec_digit(d: nat) -> char {
    ((d + 48) as u8) as char
}

/// The decimal representation of `n`, most significant digit first.
pub open spec fn dec_rep(n: nat) -> Seq<char>
    decreases n,
{
    if n < 10 {
        seq![dec_digit(n)]
    } else {
        dec_rep(n / 10).push(dec_digit(n % 10))
    }
}

/// The serialized form of a frame: callee name, file and line, joined by
/// dashes.
pub open spec fn serialized_frame(f: StackFrameInfoV) -> Seq<char> {
    f.callee_name + seq!['-'] + f.callee_file + seq!['-'] + dec_rep(f.callee_lineno as nat)
}

/// Appends one decimal digit to `s`.
fn push_digit(s: &mut String, d: u32)
    requires
        d < 10,
    ensures
        final(s)@ == old(s)@.push(dec_digit(d as nat)),
{
    match d {
        0 => s.append("0"),
        1 => s.append("1"),
        2 => s.append("2"),
        3 => s.append("3"),
        4 => s.append("4"),
        5 => s.append("5"),
        6 => s.append("6"),
        7 => s.append("7"),
        8 => s.append("8"),
        _ => s.append("9"),
    }
    proof {
        reveal_strlit("0");
        reveal_strlit("1");
        reveal_strlit("2");
        reveal_strlit("3");
        reveal_strlit("4");
        reveal_strlit("5");
        reveal_strlit("6");
        reveal_strlit("7");
        reveal_strlit("8");
        reveal_strlit("9");
        assert(final(s)@ =~= old(s)@.push(dec_digit(d as nat)));
    }
}

/// Appends the decimal representation of `n` to `s`.
fn push_decimal(s: &mut String, n: u32)
    ensures
        final(s)@ == old(s)@ + dec_rep(n as nat),
    decreases n,
{
    if n < 10 {
        push_digit(s, n);
        proof {
            assert(final(s)@ =~= old(s)@ + dec_rep(n as nat));
        }
    } else {
        push_decimal(s, n / 10);
        push_digit(s, n % 10);
        proof {
            assert(final(s)@ =~= old(s)@ + dec_rep(n as nat));
        }
    }
}

impl StackFrameInfo {
    /// Extracts relevant callee information from a `&BacktraceFrame`.
    ///
    /// Relies on the backtrace crate: `BacktraceFrame::symbols` lists the
    /// resolved symbols of the frame, and `BacktraceSymbol::name`,
    /// `filename`, `lineno` and `colno` describe the first of them, each
    /// absent when resolution failed. What comes back depends on the
    /// machine and build, so nothing is promised of the result.
    #[verifier::external_body]
    pub fn new(frame: &BacktraceFrame) -> Self {
        let sym = frame.symbols().first();
        StackFrameInfo {
            callee_name: sym.and_then(|s| s.name()).map(|n| n.to_string()).unwrap_or_default(),
            callee_file: sym
                .and_then(|s| s.filename())
                .map(|p| p.to_string_lossy().into_owned())
                .unwrap_or_else(|| String::from("No such file")),
            callee_lineno: sym.and_then(|s| s.lineno()).unwrap_or(0),
            callee_col: sym.and_then(|s| s.colno()).unwrap_or(0),
        }
    }

    /// Serializes stack frame info as `name-file-line`.
    pub fn serialize(&self) -> (r: String)
        ensures
            r@ == serialized_frame(self@),
    {
        let mut out = String::new();
        out.append(self.callee_name.as_str());
        out.append("-");
        out.append(self.callee_file.as_str());
        out.append("-");
        push_decimal(&mut out, self.callee_lineno);
        proof {
            reveal_strlit("-");
            assert(out@ =~= serialized_frame(self@));
        }
        out
    }
}

/// Relies on `backtrace::Backtrace::frames`: the captured frames of the
/// trace, in top-to-bottom order. Which frames a capture holds depends on
/// the machine, so nothing is promised of the result.
#[verifier::external_body]
fn backtrace_frames_vec(bt: &Backtrace) -> Vec<BacktraceFrame> {
    bt.frames().to_vec()
}

/// Structural equality of two frames' plain values.
fn eq_frames(a: &StackFrameInfo, b: &StackFrameInfo) -> (r: bool)
    ensures
        r == (a@ == b@),
{
    let r = a.callee_name == b.callee_name && a.callee_file == b.callee_file && a.callee_lineno
        == b.callee_lineno && a.callee_col == b.callee_col;
    proof {
        if a@.callee_name == b@.callee_name && a@.callee_file == b@.callee_file && a@.callee_lineno
            == b@.callee_lineno && a@.callee_col == b@.callee_col {
            assert(a@ == b@);
        }
    }
    r
}

/// Structural equality of two full traces.
fn traces_equal(a: &Vec<StackFrameInfo>, b: &Vec<StackFrameInfo>) -> (r: bool)
    ensures
        r == (a.deep_view() == b.deep_view()),
{
    if a.len() != b.len() {
        proof {
            assert(a.deep_view().len() != b.deep_view().len());
        }
        return false;
    }
    let mut i: usize = 0;
    while i < a.len()
        invariant
            a@.len() == b@.len(),
            i <= a@.len(),
            forall|j: int| 0 <= j < i ==> #[trigger] a@[j]@ == b@[j]@,
        decreases a@.len() - i,
    {
        if !eq_frames(&a[i], &b[i]) {
            proof {
                assert(a.deep_view()[i as int] != b.deep_view()[i as int]);
            }
            return false;
        }
        i += 1;
    }
    proof {
        assert(a.deep_view() =~= b.deep_view());
    }
    true
}

/// A deep copy of a trace.
fn clone_trace(v: &Vec<StackFrameInfo>) -> (r: Vec<StackFrameInfo>)
    ensures
        r.deep_view() == v.deep_view(),
{
    let mut r: Vec<StackFrameInfo> = Vec::new();
    let mut i: usize = 0;
    while i < v.len()
        invariant
            i <= v@.len(),
            r@.len() == i,
            forall|j: int| 0 <= j < i ==> #[trigger] r@[j]@ == v@[j]@,
        decreases v@.len() - i,
    {
        let f = v[i].clone();
        r.push(f);
        i += 1;
    }
    proof {
        assert(r.deep_view() =~= v.deep_view());
    }
    r
}

/// The trace id an insertion yields: the id of the already-stored identical
/// trace when there is one, the next fresh id otherwise.
pub open spec fn spec_trace_id(s: Seq<Seq<StackFrameInfoV>>, t: Seq<StackFrameInfoV>) -> int {
    if s.contains(t) {
        s.index_of(t)
    } else {
        s.len() as int
    }
}

/// The trace store after an insertion: unchanged when an identical trace is
/// already stored, extended by the new trace otherwise.
pub open spec fn spec_insert(s: Seq<Seq<StackFrameInfoV>>, t: Seq<StackFrameInfoV>) -> Seq<
    Seq<StackFrameInfoV>,
> {
    if s.contains(t) {
        s
    } else {
        s.push(t)
    }
}

/// No two stored traces are identical.
pub open spec fn no_duplicate_traces(s: Seq<Seq<StackFrameInfoV>>) -> bool {
    forall|i: int, j: int| 0 <= i < j < s.len() ==> s[i] != s[j]
}

/// Lookup structure for the one-to-one correspondence between call stack
/// information and a graph node's trace id. Traces are deduplicated on
/// insertion: byte-identical traces share one id, so the store grows with
/// the number of distinct call sites, not the number of nodes.
#[derive(Debug)]
pub struct StackFrameLookup {
    /// Given a trace id, return the stack trace it names.
    pub id_data_lookup: HashMap<u64, Vec<StackFrameInfo>>,
    /// The deduplicated traces in insertion order; a trace's position is
    /// its id.
    pub data_id_lookup: Vec<Vec<StackFrameInfo>>,
}

impl StackFrameLookup {
    /// The deduplicated traces, in insertion order; a trace's id is its
    /// position.
    pub open spec fn traces(&self) -> Seq<Seq<StackFrameInfoV>> {
        self.data_id_lookup.deep_view()
    }

    /// The two maps agree: every id below the store's length resolves to
    /// the stored trace, no other id resolves, and no trace is stored
    /// twice.
    pub open spec fn wf(&self) -> bool {
        &&& no_duplicate_traces(self.traces())
        &&& forall|k: u64| k < self.traces().len() ==> #[trigger] self.id_data_lookup@.contains_key(k)
        &&& forall|k: u64|
            k < self.traces().len() ==> (#[trigger] self.id_data_lookup@[k]).deep_view()
                == self.traces()[k as int]
        &&& forall|k: u64| #[trigger]
            self.id_data_lookup@.contains_key(k) ==> k < self.traces().len()
    }

    /// Creates a new `StackFrameLookup` object with an empty store.
    pub fn new() -> (r: Self)
        ensures
            r.wf(),
            r.traces() == Seq::<Seq<StackFrameInfoV>>::empty(),
    {
        let r = StackFrameLookup { id_data_lookup: HashMap::new(), data_id_lookup: Vec::new() };
        proof {
            assert(r.traces() =~= Seq::<Seq<StackFrameInfoV>>::empty());
        }
        r
    }

    /// Extracts backtrace info, turning it into a `Vec<StackFrameInfo>`.
    /// The frames come from the machine's unwinder, so nothing is stated of
    /// the result beyond its existence.
    pub fn backtrace_to_stackframes(&self, bt: &Backtrace) -> Vec<StackFrameInfo> {
        let frames = backtrace_frames_vec(bt);
        let mut trace: Vec<StackFrameInfo> = Vec::new();
        let mut i: usize = 0;
        while i < frames.len()
            decreases frames@.len() - i,
        {
            let f = StackFrameInfo::new(&frames[i]);
            trace.push(f);
            i += 1;
        }
        trace
    }

    /// Inserts a trace, deduplicating: if an identical trace is already
    /// stored its id is returned and nothing changes; otherwise the trace
    /// is stored under the next fresh id.
    pub fn data_to_id(&mut self, data: &Vec<StackFrameInfo>) -> (id: u64)
        requires
            old(self).wf(),
            old(self).traces().len() < u64::MAX,
        ensures
            final(self).wf(),
            id as int == spec_trace_id(old(self).traces(), data.deep_view()),
            final(self).traces() == spec_insert(old(self).traces(), data.deep_view()),
    {
        let ghost dv = data.deep_view();
        let mut i: usize = 0;
        while i < self.data_id_lookup.len()
            invariant
                *self == *old(self),
                self.wf(),
                dv == data.deep_view(),
                i <= self.traces().len(),
                forall|j: int| 0 <= j < i ==> self.traces()[j] != dv,
            decreases self.traces().len() - i,
        {
            if traces_equal(&self.data_id_lookup[i], data) {
                proof {
                    assert(self.traces()[i as int] == dv);
                    assert(self.traces().contains(dv));
                    let k = self.traces().index_of(dv);
                    assert(0 <= k < self.traces().len() && self.traces()[k] == dv);
                    if k != i {
                        assert(false);
                    }
                }
                return i as u64;
            }
            i += 1;
        }
        proof {
            if self.traces().contains(dv) {
                let k = choose|k: int|
                    0 <= k < self.traces().len() && #[trigger] self.traces()[k] == dv;
                assert(self.traces()[k] != dv);
            }
        }
        let id = self.data_id_lookup.len() as u64;
        let stored = clone_trace(data);
        let mapped = clone_trace(data);
        self.data_id_lookup.push(stored);
        self.id_data_lookup.insert(id, mapped);
        proof {
            assert(self.traces() =~= old(self).traces().push(dv));
            assert(final(self).traces() == spec_insert(old(self).traces(), dv));
            assert forall|k: u64| k < self.traces().len() implies #[trigger] self
                .id_data_lookup@.contains_key(k) && self.id_data_lookup@[k].deep_view()
                == self.traces()[k as int] by {
                if k < old(self).traces().len() {
                    assert(old(self).id_data_lookup@.contains_key(k));
                    assert(old(self).id_data_lookup@[k].deep_view() == old(self).traces()[
                    k as int]);
                }
            }
        }
        id
    }

    /// Returns the trace stored under `id`, or `IdNotFound` if no insertion
    /// ever yielded that id.
    pub fn id_to_data(&self, id: u64) -> (r: Result<Vec<StackFrameInfo>, Error>)
        requires
            self.wf(),
        ensures
            match r {
                Ok(v) => id < self.traces().len() && v.deep_view() == self.traces()[id as int],
                Err(e) => e == Error::IdNotFound && id >= self.traces().len(),
            },
    {
        match self.id_data_lookup.get(&id) {
            Some(v) => Ok(clone_trace(v)),
            None => Err(Error::IdNotFound),
        }
    }
}

/// Correlation dedup law. Starting from any duplicate-free trace store,
/// insert a trace `t1`, then a trace `t2`. The two insertions yield the
/// same id exactly when the traces are identical: identical traces share
/// one id (and the second insertion stores nothing new), distinct traces
/// get distinct ids. Each id resolves back to its own trace.
pub proof fn lemma_correlation_dedup(
    s: Seq<Seq<StackFrameInfoV>>,
    t1: Seq<StackFrameInfoV>,
    t2: Seq<StackFrameInfoV>,
)
    requires
        no_duplicate_traces(s),
    ensures
        ({
            let id1 = spec_trace_id(s, t1);
            let s1 = spec_insert(s, t1);
            let id2 = spec_trace_id(s1, t2);
            let s2 = spec_insert(s1, t2);
            &&& no_duplicate_traces(s1)
            &&& no_duplicate_traces(s2)
            &&& 0 <= id1 < s1.len() && s1[id1] == t1
            &&& 0 <= id2 < s2.len() && s2[id2] == t2
            &&& (t1 == t2 <==> id1 == id2)
            &&& (t1 == t2 ==> s2 == s1)
        }),
{
    let id1 = spec_trace_id(s, t1);
    let s1 = spec_insert(s, t1);
    let id2 = spec_trace_id(s1, t2);
    let s2 = spec_insert(s1, t2);
    lemma_insert_one(s, t1);
    lemma_insert_one(s1, t2);
    if t1 == t2 {
        assert(s1.contains(t2)) by {
            assert(s1[id1] == t2);
        }
        assert(s1[id2] == t2 && s1[id1] == t1);
    } else {
        assert(s1[id1] == t1 && s2[id2] == t2);
        if id1 == id2 {
            assert(s2[id1] == t1);
        }
    }
}

/// One insertion into a duplicate-free store: the yielded id is in range,
/// resolves to the inserted trace, and the store stays duplicate-free.
pub proof fn lemma_insert_one(s: Seq<Seq<StackFrameInfoV>>, t: Seq<StackFrameInfoV>)
    requires
        no_duplicate_traces(s),
    ensures
        ({
            let id = spec_trace_id(s, t);
            let s1 = spec_insert(s, t);
            &&& no_duplicate_traces(s1)
            &&& 0 <= id < s1.len()
            &&& s1[id] == t
            &&& s.contains(t) ==> s1 == s
            &&& !s.contains(t) ==> s1 == s.push(t) && id == s.len()
        }),
{
    let id = spec_trace_id(s, t);
    let s1 = spec_insert(s, t);
    if s.contains(t) {
        assert(0 <= id < s.len() && s[id] == t);
    } else {
        assert forall|i: int, j: int| 0 <= i < j < s1.len() implies s1[i] != s1[j] by {
            if j == s1.len() - 1 {
                assert(!s.contains(t));
                if s1[i] == t {
                    assert(s.contains(t));
                }
            }
        }
    }
}

} // verus!
