//! What stands ahead of the parser: questions about the next tokens, which
//! take no token, and what asking them does to the state.

use vstd::prelude::*;
use crate::parse::grammar::parser::{lemma_looked_up, same_outlook, ParserView, TokenClass};
use crate::parse::grammar::rules::ModuleItemSort;
use crate::parse::lexer::symbols::{
    Symbols, KEYWORD_ALIAS, KEYWORD_EXTERN, KEYWORD_FN, KEYWORD_INTERFACE, KEYWORD_MODULE,
    KEYWORD_PUB, KEYWORD_STRUCT, KEYWORD_USE,
};
use crate::parse::lexer::token_kind::TokenKind;
use crate::symbol::name::Symbol;

verus! {

/// Whether every question is about a place ahead.
pub open spec fn ahead(questions: Seq<(int, TokenClass)>) -> bool {
    forall|i: int| 0 <= i < questions.len() ==> (#[trigger] questions[i]).0 >= 0
}

/// Whether each of `questions[from..]` is answered yes: a question names a
/// place ahead and the class of the token that is to stand there.
pub open spec fn all_stand(view: ParserView, questions: Seq<(int, TokenClass)>, from: int) -> bool
    decreases questions.len() - from,
{
    if from < 0 || from >= questions.len() {
        true
    } else {
        view.stands(questions[from].0, questions[from].1) && all_stand(view, questions, from + 1)
    }
}

/// The state after `questions[from..]` were asked in turn, up to the first
/// that is answered no.
pub open spec fn asked_in_turn(
    view: ParserView,
    questions: Seq<(int, TokenClass)>,
    from: int,
) -> ParserView
    decreases questions.len() - from,
{
    if from < 0 || from >= questions.len() {
        view
    } else {
        let next = view.looked_up(questions[from].0, questions[from].1);
        if view.stands(questions[from].0, questions[from].1) {
            asked_in_turn(next, questions, from + 1)
        } else {
            next
        }
    }
}

/// Whether all of `first` are answered yes, or all of `second`.
pub open spec fn either_follows(
    view: ParserView,
    first: Seq<(int, TokenClass)>,
    second: Seq<(int, TokenClass)>,
) -> bool {
    all_stand(view, first, 0) || all_stand(view, second, 0)
}

/// The state after `first` were asked in turn and, if one of them was
/// answered no, `second` after them.
pub open spec fn either_asked(
    view: ParserView,
    first: Seq<(int, TokenClass)>,
    second: Seq<(int, TokenClass)>,
) -> ParserView {
    let after = asked_in_turn(view, first, 0);
    if all_stand(view, first, 0) {
        after
    } else {
        asked_in_turn(after, second, 0)
    }
}

/// The question whether the keyword stands next.
pub open spec fn keyword_alone(keyword: Symbol) -> Seq<(int, TokenClass)> {
    seq![(0int, TokenClass::Keyword(keyword))]
}

/// The questions whether `marker` stands next and the keyword behind it.
pub open spec fn marked_keyword(marker: Symbol, keyword: Symbol) -> Seq<(int, TokenClass)> {
    seq![(0int, TokenClass::Keyword(marker)), (1int, TokenClass::Keyword(keyword))]
}

/// The questions whether the keyword `module`, a name and a semicolon
/// stand next.
pub open spec fn module_decl_words(module: Symbol) -> Seq<(int, TokenClass)> {
    seq![
        (0int, TokenClass::Keyword(module)),
        (1int, TokenClass::Identifier),
        (2int, TokenClass::Kind(TokenKind::Semicolon)),
    ]
}

/// The questions whether `marker`, the keyword `module`, a name and a
/// semicolon stand next.
pub open spec fn marked_module_decl_words(marker: Symbol, module: Symbol) -> Seq<
    (int, TokenClass),
> {
    seq![
        (0int, TokenClass::Keyword(marker)),
        (1int, TokenClass::Keyword(module)),
        (2int, TokenClass::Identifier),
        (3int, TokenClass::Kind(TokenKind::Semicolon)),
    ]
}

/// Whether the keyword at `keyword` stands next, with `pub` before it or
/// not.
pub open spec fn item_keyword_stands(view: ParserView, symbols: &Symbols, keyword: int) -> bool {
    either_follows(
        view,
        keyword_alone(symbols.spec_get(keyword)),
        marked_keyword(symbols.spec_get(KEYWORD_PUB as int), symbols.spec_get(keyword)),
    )
}

/// The state after it was asked whether the keyword at `keyword` stands
/// next, with `pub` before it or not.
pub open spec fn item_keyword_asked(view: ParserView, symbols: &Symbols, keyword: int) -> ParserView {
    either_asked(
        view,
        keyword_alone(symbols.spec_get(keyword)),
        marked_keyword(symbols.spec_get(KEYWORD_PUB as int), symbols.spec_get(keyword)),
    )
}

/// Whether `module`, a name and a semicolon stand next, with `pub` before
/// them or not.
pub open spec fn module_decl_stands(view: ParserView, symbols: &Symbols) -> bool {
    either_follows(
        view,
        module_decl_words(symbols.spec_get(KEYWORD_MODULE as int)),
        marked_module_decl_words(
            symbols.spec_get(KEYWORD_PUB as int),
            symbols.spec_get(KEYWORD_MODULE as int),
        ),
    )
}

/// The state after it was asked whether `module`, a name and a semicolon
/// stand next, with `pub` before them or not.
pub open spec fn module_decl_asked(view: ParserView, symbols: &Symbols) -> ParserView {
    either_asked(
        view,
        module_decl_words(symbols.spec_get(KEYWORD_MODULE as int)),
        marked_module_decl_words(
            symbols.spec_get(KEYWORD_PUB as int),
            symbols.spec_get(KEYWORD_MODULE as int),
        ),
    )
}

/// Whether the keyword `extern` stands next.
pub open spec fn extern_stands(view: ParserView, symbols: &Symbols) -> bool {
    view.stands(0, TokenClass::Keyword(symbols.spec_get(KEYWORD_EXTERN as int)))
}

/// The sort of the item that the next words announce: the first in this
/// order whose words stand next, and an `impl` block if none does.
pub open spec fn item_sort(view: ParserView, symbols: &Symbols) -> ModuleItemSort {
    if item_keyword_stands(view, symbols, KEYWORD_USE as int) {
        ModuleItemSort::Use
    } else if item_keyword_stands(view, symbols, KEYWORD_ALIAS as int) {
        ModuleItemSort::AliasDef
    } else if module_decl_stands(view, symbols) {
        ModuleItemSort::ModuleDecl
    } else if item_keyword_stands(view, symbols, KEYWORD_MODULE as int) {
        ModuleItemSort::ModuleDef
    } else if extern_stands(view, symbols) {
        ModuleItemSort::ExternBlock
    } else if item_keyword_stands(view, symbols, KEYWORD_FN as int) {
        ModuleItemSort::FnDef
    } else if item_keyword_stands(view, symbols, KEYWORD_STRUCT as int) {
        ModuleItemSort::StructDef
    } else if item_keyword_stands(view, symbols, KEYWORD_INTERFACE as int) {
        ModuleItemSort::InterfaceDef
    } else {
        ModuleItemSort::ImplBlock
    }
}

/// The state after the sort of the next item was told: the sorts are asked
/// for in their order, up to the first that is found.
pub open spec fn item_sort_asked(view: ParserView, symbols: &Symbols) -> ParserView {
    let use_asked = item_keyword_asked(view, symbols, KEYWORD_USE as int);
    let alias_asked = item_keyword_asked(use_asked, symbols, KEYWORD_ALIAS as int);
    let decl_asked = module_decl_asked(alias_asked, symbols);
    let module_asked = item_keyword_asked(decl_asked, symbols, KEYWORD_MODULE as int);
    let extern_asked = module_asked.looked_up(
        0,
        TokenClass::Keyword(symbols.spec_get(KEYWORD_EXTERN as int)),
    );
    let fn_asked = item_keyword_asked(extern_asked, symbols, KEYWORD_FN as int);
    let struct_asked = item_keyword_asked(fn_asked, symbols, KEYWORD_STRUCT as int);
    let interface_asked = item_keyword_asked(struct_asked, symbols, KEYWORD_INTERFACE as int);
    match item_sort(view, symbols) {
        ModuleItemSort::Use => use_asked,
        ModuleItemSort::AliasDef => alias_asked,
        ModuleItemSort::ModuleDecl => decl_asked,
        ModuleItemSort::ModuleDef => module_asked,
        ModuleItemSort::ExternBlock => extern_asked,
        ModuleItemSort::FnDef => fn_asked,
        ModuleItemSort::StructDef => struct_asked,
        ModuleItemSort::InterfaceDef => interface_asked,
        ModuleItemSort::ImplBlock => interface_asked,
    }
}

/// Questions are answered alike in two states in which the same tokens
/// stand ahead.
pub proof fn lemma_all_stand_alike(
    after: ParserView,
    before: ParserView,
    questions: Seq<(int, TokenClass)>,
    from: int,
)
    requires
        same_outlook(after, before),
        ahead(questions),
    ensures
        all_stand(after, questions, from) == all_stand(before, questions, from),
    decreases questions.len() - from,
{
    if 0 <= from < questions.len() {
        lemma_all_stand_alike(after, before, questions, from + 1);
    }
}

/// To ask questions in turn changes nothing of what stands ahead, takes no
/// token, and keeps the state in order.
pub proof fn lemma_asked_in_turn(
    view: ParserView,
    questions: Seq<(int, TokenClass)>,
    from: int,
)
    requires
        view.wf(),
        ahead(questions),
    ensures
        asked_in_turn(view, questions, from).wf(),
        same_outlook(asked_in_turn(view, questions, from), view),
        asked_in_turn(view, questions, from).taken == view.taken,
        asked_in_turn(view, questions, from).tokens == view.tokens,
    decreases questions.len() - from,
{
    if 0 <= from < questions.len() {
        let next = view.looked_up(questions[from].0, questions[from].1);
        lemma_looked_up(view, questions[from].0, questions[from].1);
        if view.stands(questions[from].0, questions[from].1) {
            lemma_asked_in_turn(next, questions, from + 1);
        }
    }
}

/// To ask for one run of words or another changes nothing of what stands
/// ahead, takes no token, and keeps the state in order; and the answer is
/// the same in every state in which the same tokens stand ahead.
pub proof fn lemma_either_asked(
    view: ParserView,
    start: ParserView,
    first: Seq<(int, TokenClass)>,
    second: Seq<(int, TokenClass)>,
)
    requires
        view.wf(),
        same_outlook(view, start),
        ahead(first),
        ahead(second),
    ensures
        either_asked(view, first, second).wf(),
        same_outlook(either_asked(view, first, second), start),
        either_asked(view, first, second).taken == view.taken,
        either_asked(view, first, second).tokens == view.tokens,
        either_follows(view, first, second) == either_follows(start, first, second),
{
    let after = asked_in_turn(view, first, 0);
    lemma_asked_in_turn(view, first, 0);
    lemma_asked_in_turn(after, second, 0);
    lemma_all_stand_alike(view, start, first, 0);
    lemma_all_stand_alike(view, start, second, 0);
}

/// To ask for a keyword, with `pub` before it or not, changes nothing of
/// what stands ahead, takes no token, and keeps the state in order; and
/// the answer is the same in every state in which the same tokens stand
/// ahead.
pub proof fn lemma_item_keyword_asked(
    view: ParserView,
    start: ParserView,
    symbols: &Symbols,
    keyword: int,
)
    requires
        view.wf(),
        same_outlook(view, start),
    ensures
        item_keyword_asked(view, symbols, keyword).wf(),
        same_outlook(item_keyword_asked(view, symbols, keyword), start),
        item_keyword_asked(view, symbols, keyword).taken == view.taken,
        item_keyword_asked(view, symbols, keyword).tokens == view.tokens,
        item_keyword_stands(view, symbols, keyword) == item_keyword_stands(
            start,
            symbols,
            keyword,
        ),
{
    lemma_either_asked(
        view,
        start,
        keyword_alone(symbols.spec_get(keyword)),
        marked_keyword(symbols.spec_get(KEYWORD_PUB as int), symbols.spec_get(keyword)),
    );
}

} // verus!
