use vstd::prelude::*;
use vstd::string::*;
use crate::symbol::interner::{text_of, Interner};
use crate::symbol::name::Symbol;

verus! {

pub const UNKNOWN: usize = 0;

pub const WHITESPACE: usize = 1;

pub const COMMENT: usize = 2;

pub const OPEN_PAREN: usize = 3;

pub const CLOSE_PAREN: usize = 4;

pub const OPEN_BRACE: usize = 5;

pub const CLOSE_BRACE: usize = 6;

pub const OPEN_BRACKET: usize = 7;

pub const CLOSE_BRACKET: usize = 8;

pub const DOT: usize = 9;

pub const COMMA: usize = 10;

pub const COLON: usize = 11;

pub const SEMICOLON: usize = 12;

pub const ARROW: usize = 13;

pub const ASSIGN: usize = 14;

pub const ASSIGN_ADD: usize = 15;

pub const ASSIGN_SUB: usize = 16;

pub const ASSIGN_MUL: usize = 17;

pub const ASSIGN_DIV: usize = 18;

pub const ASSIGN_MOD: usize = 19;

pub const ASSIGN_POW: usize = 20;

pub const ASSIGN_SHL: usize = 21;

pub const ASSIGN_SHR: usize = 22;

pub const ASSIGN_BIT_OR: usize = 23;

pub const ASSIGN_BIT_AND: usize = 24;

pub const ASSIGN_BIT_XOR: usize = 25;

pub const ASSIGN_BIT_NOT: usize = 26;

pub const RNG: usize = 27;

pub const RNG_INCLUSIVE: usize = 28;

pub const EQ: usize = 29;

pub const NE: usize = 30;

pub const LT: usize = 31;

pub const GT: usize = 32;

pub const LE: usize = 33;

pub const GE: usize = 34;

pub const ADD: usize = 35;

pub const SUB: usize = 36;

pub const MUL: usize = 37;

pub const DIV: usize = 38;

pub const MOD: usize = 39;

pub const POW: usize = 40;

pub const SHL: usize = 41;

pub const SHR: usize = 42;

pub const BIT_OR: usize = 43;

pub const BIT_AND: usize = 44;

pub const BIT_XOR: usize = 45;

pub const LOG_OR: usize = 46;

pub const LOG_AND: usize = 47;

pub const BIT_NOT: usize = 48;

pub const LOG_NOT: usize = 49;

pub const PATH_SEP: usize = 50;

pub const ID: usize = 51;

pub const LITERAL: usize = 52;

pub const KEYWORD_USE: usize = 53;

pub const KEYWORD_SELF: usize = 54;

pub const KEYWORD_SUPER: usize = 55;

pub const KEYWORD_ALIAS: usize = 56;

pub const KEYWORD_MODULE: usize = 57;

pub const KEYWORD_EXTERN: usize = 58;

pub const KEYWORD_PROTOTYPE: usize = 59;

pub const KEYWORD_FN: usize = 60;

pub const KEYWORD_STRUCT: usize = 61;

pub const KEYWORD_INTERFACE: usize = 62;

pub const KEYWORD_IMPL: usize = 63;

pub const KEYWORD_PUB: usize = 64;

pub const KEYWORD_WHERE: usize = 65;

pub const KEYWORD_LET: usize = 66;

pub const KEYWORD_IF: usize = 67;

pub const KEYWORD_ELSE: usize = 68;

pub const KEYWORD_LOOP: usize = 69;

pub const KEYWORD_WHILE: usize = 70;

pub const KEYWORD_BREAK: usize = 71;

pub const KEYWORD_CONTINUE: usize = 72;

pub const KEYWORD_RETURN: usize = 73;

pub const KEYWORD_AS: usize = 74;

pub const TYPENAME_BOOL: usize = 75;

pub const TYPENAME_INT: usize = 76;

pub const TYPENAME_FLOAT: usize = 77;

pub const TYPENAME_STRING: usize = 78;

pub const TYPENAME_PTR: usize = 79;

pub const TYPENAME_REF: usize = 80;

/// The number of well-known names.
pub const WELL_KNOWN_COUNT: usize = 81;

/// The text of the well-known name at `index`: the names of the token
/// kinds as messages show them, the keywords, and the built-in type names.
pub open spec fn well_known_text(index: int) -> Seq<char> {
    if index == 0 {
        "unknown"@
    } else if index == 1 {
        "whitespace"@
    } else if index == 2 {
        "comment"@
    } else if index == 3 {
        "("@
    } else if index == 4 {
        ")"@
    } else if index == 5 {
        "{"@
    } else if index == 6 {
        "}"@
    } else if index == 7 {
        "["@
    } else if index == 8 {
        "]"@
    } else if index == 9 {
        "."@
    } else if index == 10 {
        ","@
    } else if index == 11 {
        ":"@
    } else if index == 12 {
        ";"@
    } else if index == 13 {
        "->"@
    } else if index == 14 {
        "="@
    } else if index == 15 {
        "+="@
    } else if index == 16 {
        "-="@
    } else if index == 17 {
        "*="@
    } else if index == 18 {
        "/="@
    } else if index == 19 {
        "%="@
    } else if index == 20 {
        "**="@
    } else if index == 21 {
        "<<="@
    } else if index == 22 {
        ">>="@
    } else if index == 23 {
        "|="@
    } else if index == 24 {
        "&="@
    } else if index == 25 {
        "^="@
    } else if index == 26 {
        "~="@
    } else if index == 27 {
        ".."@
    } else if index == 28 {
        "..="@
    } else if index == 29 {
        "=="@
    } else if index == 30 {
        "!="@
    } else if index == 31 {
        "<"@
    } else if index == 32 {
        ">"@
    } else if index == 33 {
        "<="@
    } else if index == 34 {
        ">="@
    } else if index == 35 {
        "+"@
    } else if index == 36 {
        "-"@
    } else if index == 37 {
        "*"@
    } else if index == 38 {
        "/"@
    } else if index == 39 {
        "%"@
    } else if index == 40 {
        "**"@
    } else if index == 41 {
        "<<"@
    } else if index == 42 {
        ">>"@
    } else if index == 43 {
        "|"@
    } else if index == 44 {
        "&"@
    } else if index == 45 {
        "^"@
    } else if index == 46 {
        "||"@
    } else if index == 47 {
        "&&"@
    } else if index == 48 {
        "~"@
    } else if index == 49 {
        "!"@
    } else if index == 50 {
        "::"@
    } else if index == 51 {
        "identifier"@
    } else if index == 52 {
        "literal"@
    } else if index == 53 {
        "use"@
    } else if index == 54 {
        "self"@
    } else if index == 55 {
        "super"@
    } else if index == 56 {
        "alias"@
    } else if index == 57 {
        "module"@
    } else if index == 58 {
        "extern"@
    } else if index == 59 {
        "prototype"@
    } else if index == 60 {
        "fn"@
    } else if index == 61 {
        "struct"@
    } else if index == 62 {
        "interface"@
    } else if index == 63 {
        "impl"@
    } else if index == 64 {
        "pub"@
    } else if index == 65 {
        "where"@
    } else if index == 66 {
        "let"@
    } else if index == 67 {
        "if"@
    } else if index == 68 {
        "else"@
    } else if index == 69 {
        "loop"@
    } else if index == 70 {
        "while"@
    } else if index == 71 {
        "break"@
    } else if index == 72 {
        "continue"@
    } else if index == 73 {
        "return"@
    } else if index == 74 {
        "as"@
    } else if index == 75 {
        "bool"@
    } else if index == 76 {
        "int"@
    } else if index == 77 {
        "float"@
    } else if index == 78 {
        "string"@
    } else if index == 79 {
        "ptr"@
    } else if index == 80 {
        "ref"@
    } else {
        Seq::empty()
    }
}

/// The symbols of the well-known names in one interner.
#[derive(Debug)]
pub struct Symbols {
    list: Vec<Symbol>,
}

impl Symbols {
    /// The list holds, for each well-known name, its symbol in `table`.
    pub closed spec fn wf(&self, table: Seq<Seq<char>>) -> bool {
        &&& self.list@.len() == WELL_KNOWN_COUNT
        &&& forall|k: int|
            0 <= k < WELL_KNOWN_COUNT ==> (#[trigger] self.list@[k]).0 < table.len()
                && table[self.list@[k].0 as int] == well_known_text(k)
    }

    /// The symbol of the well-known name at `index`.
    pub closed spec fn spec_get(&self, index: int) -> Symbol {
        if 0 <= index < self.list@.len() {
            self.list@[index]
        } else {
            Symbol(0)
        }
    }

    /// A list that is in order stays in order when the interner grows.
    pub proof fn lemma_wf_grows(&self, before: Seq<Seq<char>>, after: Seq<Seq<char>>)
        requires
            self.wf(before),
            before.len() <= after.len(),
            forall|i: int| 0 <= i < before.len() ==> before[i] == after[i],
        ensures
            self.wf(after),
    {
        assert forall|k: int| 0 <= k < WELL_KNOWN_COUNT implies (#[trigger] self.list@[k]).0
            < after.len() && after[self.list@[k].0 as int] == well_known_text(k) by {
            assert(before[self.list@[k].0 as int] == well_known_text(k));
        }
    }

    /// The symbol at `index` stands for the well-known name at `index`.
    pub proof fn lemma_get(&self, table: Seq<Seq<char>>, index: int)
        requires
            self.wf(table),
            0 <= index < WELL_KNOWN_COUNT,
        ensures
            text_of(table, self.spec_get(index)) == well_known_text(index),
            self.spec_get(index).0 < table.len(),
    {
    }

    /// Interns every well-known name. `None` when the interner is full.
    pub fn new(interner: &mut Interner) -> (r: Option<Symbols>)
        requires
            old(interner).wf(),
        ensures
            final(interner).wf(),
            old(interner)@.len() <= final(interner)@.len(),
            forall|i: int| 0 <= i < old(interner)@.len() ==> old(interner)@[i] == final(interner)@[i],
            match r {
                Some(symbols) => symbols.wf(final(interner)@),
                None => final(interner)@.len() == u32::MAX,
            },
    {
        let names: Vec<&'static str> = vec![
            "unknown",
            "whitespace",
            "comment",
            "(",
            ")",
            "{",
            "}",
            "[",
            "]",
            ".",
            ",",
            ":",
            ";",
            "->",
            "=",
            "+=",
            "-=",
            "*=",
            "/=",
            "%=",
            "**=",
            "<<=",
            ">>=",
            "|=",
            "&=",
            "^=",
            "~=",
            "..",
            "..=",
            "==",
            "!=",
            "<",
            ">",
            "<=",
            ">=",
            "+",
            "-",
            "*",
            "/",
            "%",
            "**",
            "<<",
            ">>",
            "|",
            "&",
            "^",
            "||",
            "&&",
            "~",
            "!",
            "::",
            "identifier",
            "literal",
            "use",
            "self",
            "super",
            "alias",
            "module",
            "extern",
            "prototype",
            "fn",
            "struct",
            "interface",
            "impl",
            "pub",
            "where",
            "let",
            "if",
            "else",
            "loop",
            "while",
            "break",
            "continue",
            "return",
            "as",
            "bool",
            "int",
            "float",
            "string",
            "ptr",
            "ref",
        ];
        proof {
            assert forall|k: int| 0 <= k < WELL_KNOWN_COUNT implies (#[trigger] names@[k])@
                == well_known_text(k) by {
                lemma_names(names@, k);
            }
        }
        let mut list: Vec<Symbol> = Vec::new();
        let mut i: usize = 0;
        while i < names.len()
            invariant
                i <= names@.len(),
                names@.len() == WELL_KNOWN_COUNT,
                interner.wf(),
                old(interner)@.len() <= interner@.len(),
                forall|j: int| 0 <= j < old(interner)@.len() ==> old(interner)@[j] == interner@[j],
                forall|k: int| 0 <= k < WELL_KNOWN_COUNT ==> (#[trigger] names@[k])@
                    == well_known_text(k),
                list@.len() == i,
                forall|k: int|
                    0 <= k < i ==> (#[trigger] list@[k]).0 < interner@.len() && interner@[list@[k].0 as int]
                        == well_known_text(k),
            decreases names@.len() - i,
        {
            let ghost before = interner@;
            match interner.intern(names[i]) {
                Some(symbol) => {
                    list.push(symbol);
                    assert forall|k: int| 0 <= k < i + 1 implies (#[trigger] list@[k]).0
                        < interner@.len() && interner@[list@[k].0 as int] == well_known_text(k) by {
                        if k < i {
                            assert(before[list@[k].0 as int] == well_known_text(k));
                        }
                    }
                },
                None => {
                    return None;
                },
            }
            i += 1;
        }
        Some(Symbols { list })
    }

    /// The symbol of the well-known name at `index`.
    pub fn get(&self, index: usize) -> (r: Symbol)
        ensures
            r == self.spec_get(index as int),
    {
        if index < self.list.len() {
            self.list[index]
        } else {
            Symbol(0)
        }
    }
}

proof fn lemma_names(names: Seq<&'static str>, k: int)
    requires
        0 <= k < WELL_KNOWN_COUNT,
        names == seq![
            "unknown",
            "whitespace",
            "comment",
            "(",
            ")",
            "{",
            "}",
            "[",
            "]",
            ".",
            ",",
            ":",
            ";",
            "->",
            "=",
            "+=",
            "-=",
            "*=",
            "/=",
            "%=",
            "**=",
            "<<=",
            ">>=",
            "|=",
            "&=",
            "^=",
            "~=",
            "..",
            "..=",
            "==",
            "!=",
            "<",
            ">",
            "<=",
            ">=",
            "+",
            "-",
            "*",
            "/",
            "%",
            "**",
            "<<",
            ">>",
            "|",
            "&",
            "^",
            "||",
            "&&",
            "~",
            "!",
            "::",
            "identifier",
            "literal",
            "use",
            "self",
            "super",
            "alias",
            "module",
            "extern",
            "prototype",
            "fn",
            "struct",
            "interface",
            "impl",
            "pub",
            "where",
            "let",
            "if",
            "else",
            "loop",
            "while",
            "break",
            "continue",
            "return",
            "as",
            "bool",
            "int",
            "float",
            "string",
            "ptr",
            "ref",
        ],
    ensures
        names[k]@ == well_known_text(k),
{
}

} // verus!
