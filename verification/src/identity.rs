//! Identity layer: value types that address a crate (a loadable plugin
//! module), a task within a crate, and a datachunk within a crate.
//!
//! Names are immutable after construction, compare structurally, order
//! lexicographically by code point, and render to a human-readable form
//! for diagnostics.
use vstd::prelude::*;
use vstd::string::StrSliceExecFns;
use vstd::string::StringExecFns;

verus! {

/// Names one loadable plugin module; no two modules of a running host
/// carry the same one.
#[derive(Debug)]
pub struct CrateName {
    pub name: String,
}

/// Names a task among the tasks of its owning crate.
#[derive(Debug)]
pub struct TaskName {
    pub name: String,
}

/// Names a datachunk among the datachunks of its owning crate; these
/// names live apart from task names.
#[derive(Debug)]
pub struct DatachunkName {
    pub name: String,
}

/// The full address of a task: its crate's name paired with its own.
#[derive(Debug)]
pub struct FullTaskName {
    pub crate_name: CrateName,
    pub task_name: TaskName,
}

/// The full address of a datachunk: its crate's name paired with its
/// own.
#[derive(Debug)]
pub struct FullDatachunkName {
    pub crate_name: CrateName,
    pub datachunk_name: DatachunkName,
}

impl View for CrateName {
    type V = Seq<char>;

    open spec fn view(&self) -> Seq<char> {
        self.name@
    }
}

impl View for TaskName {
    type V = Seq<char>;

    open spec fn view(&self) -> Seq<char> {
        self.name@
    }
}

impl View for DatachunkName {
    type V = Seq<char>;

    open spec fn view(&self) -> Seq<char> {
        self.name@
    }
}

impl View for FullTaskName {
    type V = (Seq<char>, Seq<char>);

    open spec fn view(&self) -> (Seq<char>, Seq<char>) {
        (self.crate_name@, self.task_name@)
    }
}

impl View for FullDatachunkName {
    type V = (Seq<char>, Seq<char>);

    open spec fn view(&self) -> (Seq<char>, Seq<char>) {
        (self.crate_name@, self.datachunk_name@)
    }
}

/// Strict lexicographic order on character sequences, by code point.
pub open spec fn char_seq_lt(a: Seq<char>, b: Seq<char>) -> bool
    decreases a.len(),
{
    if b.len() == 0 {
        false
    } else if a.len() == 0 {
        true
    } else if (a[0] as u32) < (b[0] as u32) {
        true
    } else if (b[0] as u32) < (a[0] as u32) {
        false
    } else {
        char_seq_lt(a.skip(1), b.skip(1))
    }
}

/// Strict lexicographic comparison of two strings by code point; the
/// order that name types use when they serve as keys of ordered sets.
pub fn str_lt(a: &str, b: &str) -> (r: bool)
    ensures
        r == char_seq_lt(a@, b@),
{
    let a_len = a.unicode_len();
    let b_len = b.unicode_len();
    let mut i: usize = 0;
    proof {
        assert(a@.skip(0) =~= a@);
        assert(b@.skip(0) =~= b@);
    }
    loop
        invariant
            i <= a_len,
            i <= b_len,
            a_len == a@.len(),
            b_len == b@.len(),
            char_seq_lt(a@, b@) == char_seq_lt(a@.skip(i as int), b@.skip(i as int)),
        decreases a_len - i,
    {
        if i == b_len {
            proof {
                assert(b@.skip(i as int).len() == 0);
            }
            return false;
        }
        if i == a_len {
            proof {
                assert(a@.skip(i as int).len() == 0);
                assert(b@.skip(i as int).len() > 0);
            }
            return true;
        }
        let ca = a.get_char(i) as u32;
        let cb = b.get_char(i) as u32;
        proof {
            assert(a@.skip(i as int)[0] == a@[i as int]);
            assert(b@.skip(i as int)[0] == b@[i as int]);
        }
        if ca < cb {
            return true;
        }
        if cb < ca {
            return false;
        }
        proof {
            assert(a@.skip(i as int).skip(1) =~= a@.skip(i + 1));
            assert(b@.skip(i as int).skip(1) =~= b@.skip(i + 1));
            assert(char_seq_lt(a@.skip(i as int), b@.skip(i as int)) == char_seq_lt(
                a@.skip(i + 1),
                b@.skip(i + 1),
            ));
        }
        i = i + 1;
    }
}

/// The order is irreflexive: no sequence precedes itself.
pub proof fn lemma_char_seq_lt_irreflexive(a: Seq<char>)
    ensures
        !char_seq_lt(a, a),
    decreases a.len(),
{
    if a.len() > 0 {
        lemma_char_seq_lt_irreflexive(a.skip(1));
    }
}

/// The order is asymmetric: sequences never precede each other both ways.
pub proof fn lemma_char_seq_lt_asymmetric(a: Seq<char>, b: Seq<char>)
    requires
        char_seq_lt(a, b),
    ensures
        !char_seq_lt(b, a),
    decreases a.len(),
{
    if a.len() > 0 && b.len() > 0 && (a[0] as u32) == (b[0] as u32) {
        lemma_char_seq_lt_asymmetric(a.skip(1), b.skip(1));
    }
}

/// The order is transitive.
pub proof fn lemma_char_seq_lt_transitive(a: Seq<char>, b: Seq<char>, c: Seq<char>)
    requires
        char_seq_lt(a, b),
        char_seq_lt(b, c),
    ensures
        char_seq_lt(a, c),
    decreases a.len(),
{
    if a.len() > 0 && b.len() > 0 && c.len() > 0 && (a[0] as u32) == (b[0] as u32) && (b[0] as u32)
        == (c[0] as u32) {
        lemma_char_seq_lt_transitive(a.skip(1), b.skip(1), c.skip(1));
    }
}

/// The order is total: two sequences compare one way, the other way, or
/// are equal.
pub proof fn lemma_char_seq_lt_trichotomy(a: Seq<char>, b: Seq<char>)
    ensures
        char_seq_lt(a, b) || char_seq_lt(b, a) || a == b,
    decreases a.len(),
{
    if a.len() == 0 && b.len() == 0 {
        assert(a =~= b);
    } else if a.len() > 0 && b.len() > 0 && (a[0] as u32) == (b[0] as u32) {
        vstd::utf8::char_u32_cast(a[0], a[0] as u32);
        vstd::utf8::char_u32_cast(b[0], b[0] as u32);
        assert(a[0] == b[0]);
        lemma_char_seq_lt_trichotomy(a.skip(1), b.skip(1));
        if a.skip(1) == b.skip(1) {
            assert(a.skip(1).len() == a.len() - 1);
            assert(b.skip(1).len() == b.len() - 1);
            assert(a.len() == b.len());
            assert forall|k: int| 0 <= k < a.len() implies a[k] == b[k] by {
                if k >= 1 {
                    assert(a[k] == a.skip(1)[k - 1]);
                    assert(b[k] == b.skip(1)[k - 1]);
                }
            }
            assert(a =~= b);
        }
    }
}

impl CrateName {
    pub fn new(name: String) -> (r: Self)
        ensures
            r@ == name@,
    {
        CrateName { name }
    }

    /// Structural equality, stated over the character sequence.
    pub fn same(&self, other: &Self) -> (r: bool)
        ensures
            r == (self@ == other@),
    {
        self.name == other.name
    }

    /// Strict lexicographic order by code point.
    pub fn lex_before(&self, other: &Self) -> (r: bool)
        ensures
            r == char_seq_lt(self@, other@),
    {
        str_lt(self.name.as_str(), other.name.as_str())
    }
}

impl Clone for CrateName {
    fn clone(&self) -> (r: Self)
        ensures
            r@ == self@,
    {
        CrateName { name: self.name.clone() }
    }
}

impl TaskName {
    pub fn new(name: String) -> (r: Self)
        ensures
            r@ == name@,
    {
        TaskName { name }
    }

    pub fn same(&self, other: &Self) -> (r: bool)
        ensures
            r == (self@ == other@),
    {
        self.name == other.name
    }
}

impl Clone for TaskName {
    fn clone(&self) -> (r: Self)
        ensures
            r@ == self@,
    {
        TaskName { name: self.name.clone() }
    }
}

impl DatachunkName {
    pub fn new(name: String) -> (r: Self)
        ensures
            r@ == name@,
    {
        DatachunkName { name }
    }

    pub fn same(&self, other: &Self) -> (r: bool)
        ensures
            r == (self@ == other@),
    {
        self.name == other.name
    }
}

impl Clone for DatachunkName {
    fn clone(&self) -> (r: Self)
        ensures
            r@ == self@,
    {
        DatachunkName { name: self.name.clone() }
    }
}

impl FullTaskName {
    pub fn new(crate_name: String, task_name: String) -> (r: Self)
        ensures
            r@ == (crate_name@, task_name@),
    {
        FullTaskName { crate_name: CrateName { name: crate_name }, task_name: TaskName { name: task_name } }
    }

    /// Structural equality of the pair.
    pub fn same(&self, other: &Self) -> (r: bool)
        ensures
            r == (self@ == other@),
    {
        self.crate_name.same(&other.crate_name) && self.task_name.same(&other.task_name)
    }

    /// Strict order: by crate name first, then by task name.
    pub fn lex_before(&self, other: &Self) -> (r: bool)
        ensures
            r == (char_seq_lt(self.crate_name@, other.crate_name@) || (self.crate_name@
                == other.crate_name@ && char_seq_lt(self.task_name@, other.task_name@))),
    {
        if str_lt(self.crate_name.name.as_str(), other.crate_name.name.as_str()) {
            true
        } else if self.crate_name.same(&other.crate_name) {
            str_lt(self.task_name.name.as_str(), other.task_name.name.as_str())
        } else {
            false
        }
    }

    /// Human-readable form for diagnostics: `crate:task`.
    pub fn render(&self) -> (r: String)
        ensures
            r@ == self.crate_name@ + ":"@ + self.task_name@,
    {
        let mut out = String::new();
        out.append(self.crate_name.name.as_str());
        out.append(":");
        out.append(self.task_name.name.as_str());
        proof {
            assert(out@ =~= self.crate_name@ + ":"@ + self.task_name@);
        }
        out
    }
}

impl Clone for FullTaskName {
    fn clone(&self) -> (r: Self)
        ensures
            r@ == self@,
    {
        FullTaskName { crate_name: self.crate_name.clone(), task_name: self.task_name.clone() }
    }
}

impl FullDatachunkName {
    pub fn new(crate_name: String, datachunk_name: String) -> (r: Self)
        ensures
            r@ == (crate_name@, datachunk_name@),
    {
        FullDatachunkName {
            crate_name: CrateName { name: crate_name },
            datachunk_name: DatachunkName { name: datachunk_name },
        }
    }

    pub fn same(&self, other: &Self) -> (r: bool)
        ensures
            r == (self@ == other@),
    {
        self.crate_name.same(&other.crate_name) && self.datachunk_name.same(&other.datachunk_name)
    }

    /// Human-readable form for diagnostics: `crate:datachunk`.
    pub fn render(&self) -> (r: String)
        ensures
            r@ == self.crate_name@ + ":"@ + self.datachunk_name@,
    {
        let mut out = String::new();
        out.append(self.crate_name.name.as_str());
        out.append(":");
        out.append(self.datachunk_name.name.as_str());
        proof {
            assert(out@ =~= self.crate_name@ + ":"@ + self.datachunk_name@);
        }
        out
    }
}

impl Clone for FullDatachunkName {
    fn clone(&self) -> (r: Self)
        ensures
            r@ == self@,
    {
        FullDatachunkName {
            crate_name: self.crate_name.clone(),
            datachunk_name: self.datachunk_name.clone(),
        }
    }
}

} // verus!
