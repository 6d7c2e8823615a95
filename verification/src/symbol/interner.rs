use vstd::prelude::*;
use vstd::string::*;
use crate::symbol::name::Symbol;
use rustc_hash::FxHashMap;

verus! {

#[verifier::external_type_specification]
#[verifier::external_body]
pub struct ExFxHasher(rustc_hash::FxHasher);

#[verifier::external_type_specification]
#[verifier::external_body]
#[verifier::reject_recursive_types(H)]
pub struct ExBuildHasherDefault<H>(core::hash::BuildHasherDefault<H>);

/// What a reverse-lookup table holds: for each stored string, its index.
pub uninterp spec fn fx_entries(table: FxHashMap<String, u32>) -> Map<Seq<char>, u32>;

/// `FxHashMap::default`: a fresh table holds nothing.
#[verifier::external_body]
fn fx_new() -> (table: FxHashMap<String, u32>)
    ensures
        fx_entries(table) =~= Map::empty(),
{
    FxHashMap::default()
}

/// `HashMap::get` on an `FxHashMap`: the index stored under `key`, if any.
#[verifier::external_body]
fn fx_get(table: &FxHashMap<String, u32>, key: &str) -> (index: Option<u32>)
    ensures
        index == (if fx_entries(*table).contains_key(key@) {
            Some(fx_entries(*table)[key@])
        } else {
            None
        }),
{
    table.get(key).copied()
}

/// `HashMap::insert` on an `FxHashMap`: afterwards `key` maps to `index` and
/// every other key is as before.
#[verifier::external_body]
fn fx_insert(table: &mut FxHashMap<String, u32>, key: String, index: u32)
    ensures
        fx_entries(*final(table)) == fx_entries(*old(table)).insert(key@, index),
{
    table.insert(key, index);
}

/// A table of distinct strings. Interning a string returns its symbol: the
/// index at which the string was first stored.
pub struct Interner {
    strs: Vec<String>,
    reversed: FxHashMap<String, u32>,
}

impl View for Interner {
    type V = Seq<Seq<char>>;

    /// The interned strings, in the order of their symbols.
    closed spec fn view(&self) -> Seq<Seq<char>> {
        Seq::new(self.strs@.len(), |i: int| self.strs@[i]@)
    }
}

/// The text of `symbol` in `table`; empty for a symbol that `table` lacks.
pub open spec fn text_of(table: Seq<Seq<char>>, symbol: Symbol) -> Seq<char> {
    if (symbol.0 as int) < table.len() {
        table[symbol.0 as int]
    } else {
        Seq::empty()
    }
}

/// The text of `symbol` between backquotes, as messages show a name.
pub open spec fn quoted(table: Seq<Seq<char>>, symbol: Symbol) -> Seq<char> {
    "`"@ + text_of(table, symbol) + "`"@
}

/// No string occurs twice in `table`.
pub open spec fn distinct(table: Seq<Seq<char>>) -> bool {
    forall|i: int, j: int| 0 <= i < j < table.len() ==> table[i] != table[j]
}

impl Interner {
    /// The reverse-lookup table and the list of strings agree.
    pub closed spec fn wf(self) -> bool {
        &&& self.strs@.len() <= u32::MAX
        &&& forall|i: int|
            0 <= i < self.strs@.len() ==> #[trigger] fx_entries(self.reversed).contains_key(
                self.strs@[i]@,
            ) && fx_entries(self.reversed)[self.strs@[i]@] == i
        &&& forall|s: Seq<char>| #[trigger]
            fx_entries(self.reversed).contains_key(s) ==> 0 <= fx_entries(self.reversed)[s]
                < self.strs@.len() && self.strs@[fx_entries(self.reversed)[s] as int]@ == s
    }

    /// No string is interned twice.
    pub proof fn lemma_entries_distinct(self)
        requires
            self.wf(),
        ensures
            distinct(self@),
    {
        assert forall|i: int, j: int| 0 <= i < j < self@.len() implies self@[i] != self@[j] by {
            assert(fx_entries(self.reversed).contains_key(self.strs@[i]@));
            assert(fx_entries(self.reversed).contains_key(self.strs@[j]@));
        }
    }

    /// A new interner holds the empty string alone, as symbol zero.
    pub fn new() -> (r: Self)
        ensures
            r.wf(),
            r@ == seq![Seq::<char>::empty()],
    {
        let mut strs: Vec<String> = Vec::new();
        let mut reversed = fx_new();
        let empty = String::new();
        let key = empty.clone();
        assert(key@ == Seq::<char>::empty());
        fx_insert(&mut reversed, key, 0);
        strs.push(empty);
        let r = Self { strs, reversed };
        assert(r@ =~= seq![Seq::<char>::empty()]);
        r
    }

    /// The number of interned strings.
    pub fn len(&self) -> (r: usize)
        ensures
            r == self@.len(),
    {
        self.strs.len()
    }

    /// Whether `symbol` was handed out by this interner.
    pub open spec fn knows(&self, symbol: Symbol) -> bool {
        (symbol.0 as int) < self@.len()
    }

    pub fn contains(&self, symbol: Symbol) -> (r: bool)
        ensures
            r == self.knows(symbol),
    {
        (symbol.0 as usize) < self.strs.len()
    }

    /// The string that `symbol` stands for.
    pub fn str(&self, symbol: Symbol) -> (r: &str)
        requires
            self.knows(symbol),
        ensures
            r@ == self@[symbol.0 as int],
    {
        self.strs[symbol.0 as usize].as_str()
    }

    /// The text of `symbol`, and the empty string for a symbol that this
    /// interner never handed out.
    pub fn text(&self, symbol: Symbol) -> (r: &str)
        ensures
            r@ == text_of(self@, symbol),
    {
        if (symbol.0 as usize) < self.strs.len() {
            self.strs[symbol.0 as usize].as_str()
        } else {
            proof {
                reveal_strlit("");
            }
            let r = "";
            assert(r@ =~= Seq::<char>::empty());
            r
        }
    }

    /// The text of `symbol` between backquotes.
    pub fn display(&self, symbol: Symbol) -> (r: String)
        ensures
            r@ == quoted(self@, symbol),
    {
        let mut r = String::from_str("`");
        r.append(self.text(symbol));
        r.append("`");
        r
    }

    /// The symbol of `s`, if `s` is interned.
    pub fn lookup(&self, s: &str) -> (r: Option<Symbol>)
        requires
            self.wf(),
        ensures
            match r {
                Some(symbol) => self.knows(symbol) && self@[symbol.0 as int] == s@,
                None => forall|i: int| 0 <= i < self@.len() ==> self@[i] != s@,
            },
    {
        match fx_get(&self.reversed, s) {
            Some(index) => Some(Symbol(index)),
            None => {
                assert forall|i: int| 0 <= i < self@.len() implies self@[i] != s@ by {
                    assert(fx_entries(self.reversed).contains_key(self.strs@[i]@));
                }
                None
            },
        }
    }

    /// Interns `s`. A string that is already interned keeps its symbol and
    /// leaves the table unchanged; a new one is stored at the end. `None`
    /// when the table is full, which leaves it unchanged too.
    pub fn intern(&mut self, s: &str) -> (r: Option<Symbol>)
        requires
            old(self).wf(),
        ensures
            final(self).wf(),
            match r {
                Some(symbol) => {
                    &&& final(self).knows(symbol)
                    &&& final(self)@[symbol.0 as int] == s@
                    &&& if exists|i: int| 0 <= i < old(self)@.len() && old(self)@[i] == s@ {
                        final(self)@ == old(self)@
                    } else {
                        final(self)@ == old(self)@.push(s@) && symbol.0 == old(self)@.len()
                    }
                },
                None => {
                    &&& final(self)@ == old(self)@
                    &&& old(self)@.len() == u32::MAX
                    &&& forall|i: int| 0 <= i < old(self)@.len() ==> old(self)@[i] != s@
                },
            },
    {
        match fx_get(&self.reversed, s) {
            Some(index) => {
                assert(self@[index as int] == s@);
                Some(Symbol(index))
            },
            None => {
                assert forall|i: int| 0 <= i < self@.len() implies self@[i] != s@ by {
                    assert(fx_entries(self.reversed).contains_key(self.strs@[i]@));
                }
                if self.strs.len() >= u32::MAX as usize {
                    return None;
                }
                let index = self.strs.len() as u32;
                let ghost before = self@;
                let owned = s.to_owned();
                let key = owned.clone();
                assert(key@ == s@);
                fx_insert(&mut self.reversed, key, index);
                self.strs.push(owned);
                assert(self@ =~= before.push(s@));
                Some(Symbol(index))
            },
        }
    }
}

} // verus!
