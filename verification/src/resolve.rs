//! Unit compatibility of catalogue parameters and the normalisation of
//! catalogue expressions before evaluation.
use vstd::prelude::*;
use dashmap::DashMap;
use crate::text::{owned, replace_all, str_equal, str_replace};

verus! {

/// Two units are compatible when they are equal, when either is one of the
/// generic units `REAL`, `NUME` or `DATA`, or when they are the pair
/// `INT`/`DIST` in either order.
pub open spec fn units_compatible(a: Seq<char>, b: Seq<char>) -> bool {
    ||| a == b
    ||| a == "REAL"@ || b == "REAL"@
    ||| a == "NUME"@ || b == "NUME"@
    ||| a == "DATA"@ || b == "DATA"@
    ||| a == "INT"@ && b == "DIST"@
    ||| a == "DIST"@ && b == "INT"@
}

/// Whether a parameter of unit `unit_a` may take a value of unit `unit_b`.
pub fn check_unit_compatible(unit_a: &str, unit_b: &str) -> (r: bool)
    ensures
        r == units_compatible(unit_a@, unit_b@),
{
    let a = unit_a;
    let b = unit_b;
    str_equal(a, b) || (str_equal(a, "REAL") || str_equal(b, "REAL")) || (str_equal(a, "NUME")
        || str_equal(b, "NUME")) || (str_equal(a, "DATA") || str_equal(b, "DATA")) || (str_equal(
        a,
        "INT",
    ) && str_equal(b, "DIST")) || (str_equal(a, "DIST") && str_equal(b, "INT"))
}

/// The rewriting steps applied, in order, to a catalogue expression.
pub open spec fn eval_rewrites() -> Seq<(Seq<char>, Seq<char>)> {
    seq![
        ("IFTRUE"@, "if"@),
        (" LT "@, "<"@),
        (" GT "@, ">"@),
        (" LE "@, "<="@),
        (" GE "@, ">="@),
        (" EQ "@, "=="@),
        ("ATTRIB"@, ""@),
        ("DESIGN PARAM"@, "DESP"@),
        ("DESIGN PARA"@, "DESP"@),
    ]
}

/// `input` after the first `n` rewriting steps.
pub open spec fn rewrite_steps(input: Seq<char>, n: nat) -> Seq<char>
    decreases n,
{
    if n == 0 {
        input
    } else {
        let step = eval_rewrites()[n - 1];
        replace_all(rewrite_steps(input, (n - 1) as nat), step.0, step.1)
    }
}

/// A catalogue expression in the form the evaluator reads: `IFTRUE` becomes
/// `if`, the word comparisons ` LT `, ` GT `, ` LE `, ` GE `, ` EQ ` become
/// `<`, `>`, `<=`, `>=`, `==`, `ATTRIB` is dropped, and `DESIGN PARAM` or
/// `DESIGN PARA` become `DESP`; each rewriting runs over the result of the
/// one before.
pub fn prepare_eval_str(input: &str) -> (r: String)
    ensures
        r@ == rewrite_steps(input@, 9),
{
    proof {
        reveal_strlit("IFTRUE");
        reveal_strlit(" LT ");
        reveal_strlit(" GT ");
        reveal_strlit(" LE ");
        reveal_strlit(" GE ");
        reveal_strlit(" EQ ");
        reveal_strlit("ATTRIB");
        reveal_strlit("DESIGN PARAM");
        reveal_strlit("DESIGN PARA");
    }
    let s1 = str_replace(input, "IFTRUE", "if");
    let s2 = str_replace(s1.as_str(), " LT ", "<");
    let s3 = str_replace(s2.as_str(), " GT ", ">");
    let s4 = str_replace(s3.as_str(), " LE ", "<=");
    let s5 = str_replace(s4.as_str(), " GE ", ">=");
    let s6 = str_replace(s5.as_str(), " EQ ", "==");
    let s7 = str_replace(s6.as_str(), "ATTRIB", "");
    let s8 = str_replace(s7.as_str(), "DESIGN PARAM", "DESP");
    let s9 = str_replace(s8.as_str(), "DESIGN PARA", "DESP");
    proof {
        reveal_with_fuel(rewrite_steps, 10);
    }
    s9
}

/// The concurrent map of the `dashmap` crate, as an opaque type.
#[verifier::external_type_specification]
#[verifier::external_body]
#[verifier::reject_recursive_types(K)]
#[verifier::reject_recursive_types(V)]
#[verifier::reject_recursive_types(S)]
pub struct ExDashMap<K, V, S>(DashMap<K, V, S>);

/// What a map of parameter names to values holds.
pub uninterp spec fn dash_entries(m: DashMap<String, String>) -> Map<Seq<char>, Seq<char>>;

/// Calls `DashMap::new`, which makes an empty map.
#[verifier::external_body]
fn dash_new() -> (r: DashMap<String, String>)
    ensures
        dash_entries(r) =~= Map::empty(),
{
    DashMap::new()
}

/// Calls `DashMap::insert`: afterwards `key` maps to `value` and every
/// other key keeps its value. (The method takes a shared reference; the
/// exclusive one here rules out other users during the call.)
#[verifier::external_body]
fn dash_insert(m: &mut DashMap<String, String>, key: String, value: String)
    ensures
        dash_entries(*final(m)) == dash_entries(*old(m)).insert(key@, value@),
{
    m.insert(key, value);
}

/// Calls `DashMap::get` and clones the value it finds under `key`.
#[verifier::external_body]
fn dash_get(m: &DashMap<String, String>, key: &str) -> (r: Option<String>)
    ensures
        match r {
            Some(v) => dash_entries(*m).contains_key(key@) && v@ == dash_entries(*m)[key@],
            None => !dash_entries(*m).contains_key(key@),
        },
{
    match m.get(key) {
        Some(entry) => Some(entry.value().clone()),
        None => None,
    }
}

/// Calls `DashMap::contains_key`.
#[verifier::external_body]
fn dash_contains_key(m: &DashMap<String, String>, key: &str) -> (r: bool)
    ensures
        r == dash_entries(*m).contains_key(key@),
{
    m.contains_key(key)
}

/// Calls `DashMap::len`, the number of entries.
#[verifier::external_body]
fn dash_len(m: &DashMap<String, String>) -> (r: usize)
    ensures
        r == dash_entries(*m).len(),
{
    m.len()
}

/// The parameters of a catalogue expression, by name, and whether the
/// component is a pipe run. The map is private: it changes only through
/// the methods here, which take the context exclusively to write it.
pub struct CataContext {
    context: DashMap<String, String>,
    is_tubi: bool,
}

impl CataContext {
    /// The parameters, by name.
    pub closed spec fn params(self) -> Map<Seq<char>, Seq<char>> {
        dash_entries(self.context)
    }

    /// Whether the component is a pipe run.
    pub closed spec fn tubi(self) -> bool {
        self.is_tubi
    }

    /// An empty context of a component that is not a pipe run.
    pub fn new() -> (r: Self)
        ensures
            r.params() == Map::<Seq<char>, Seq<char>>::empty(),
            !r.tubi(),
    {
        CataContext { context: dash_new(), is_tubi: false }
    }

    /// Sets the parameter `key` to `value`.
    pub fn insert(&mut self, key: &str, value: &str)
        ensures
            final(self).params() == old(self).params().insert(key@, value@),
            final(self).tubi() == old(self).tubi(),
    {
        dash_insert(&mut self.context, owned(key), owned(value));
    }

    /// The value of the parameter `key`, if it is set.
    pub fn get(&self, key: &str) -> (r: Option<String>)
        ensures
            match r {
                Some(v) => self.params().contains_key(key@) && v@ == self.params()[key@],
                None => !self.params().contains_key(key@),
            },
    {
        dash_get(&self.context, key)
    }

    /// Whether the parameter `key` is set.
    pub fn contains_key(&self, key: &str) -> (r: bool)
        ensures
            r == self.params().contains_key(key@),
    {
        dash_contains_key(&self.context, key)
    }

    /// How many parameters are set.
    pub fn len(&self) -> (r: usize)
        ensures
            r == self.params().len(),
    {
        dash_len(&self.context)
    }

    /// Whether the component is a pipe run.
    pub fn is_tubi(&self) -> (r: bool)
        ensures
            r == self.tubi(),
    {
        self.is_tubi
    }

    /// Marks whether the component is a pipe run; the parameters stay.
    pub fn set_tubi(&mut self, is_tubi: bool)
        ensures
            final(self).tubi() == is_tubi,
            final(self).params() == old(self).params(),
    {
        self.is_tubi = is_tubi;
    }
}

/// A value set in a context is read back, and every other parameter keeps
/// its value: `after` is `before` after `insert(key, value)`.
pub proof fn lemma_context_read_after_write(
    before: CataContext,
    after: CataContext,
    key: Seq<char>,
    value: Seq<char>,
    other: Seq<char>,
)
    requires
        after.params() == before.params().insert(key, value),
        other != key,
    ensures
        after.params().contains_key(key) && after.params()[key] == value,
        after.params().contains_key(other) == before.params().contains_key(other),
        before.params().contains_key(other) ==> after.params()[other] == before.params()[other],
{
}

} // verus!
