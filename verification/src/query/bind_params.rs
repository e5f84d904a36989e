//! The bind parameters of a statement or query: each name once, in the order
//! of first use.

use vstd::prelude::*;
use crate::token::{Ident, IdentModel, TokenTree, TokenModel, tts_view, str_eq, call_site, call_site_span};
use crate::expr::BindParam;
use crate::query::node_path::idents_view;
use crate::emit::{quote_tokens, quote_into, args_view, literal_tok, ident_tok, push_all, decimal, decimal_text, suffixed_literal, string_literal};
use crate::repr::{args1, args2, args3, single, code, code_with, joined, join_parts, str_tok};
use crate::row::Features;

verus! {

/// One name added to the names collected so far, unless a name of the same
/// text is there already.
pub open spec fn add_param(params: Seq<IdentModel>, p: IdentModel) -> Seq<IdentModel> {
    if has_name(params, p.name) {
        params
    } else {
        params.push(p)
    }
}

/// Some name of the sequence has the text `n`.
pub open spec fn has_name(s: Seq<IdentModel>, n: Seq<char>) -> bool {
    exists|i: int| 0 <= i < s.len() && #[trigger] s[i].name == n
}

/// Names added one after the other.
pub open spec fn add_params(params: Seq<IdentModel>, ps: Seq<IdentModel>) -> Seq<IdentModel>
    decreases ps.len(),
{
    if ps.len() == 0 {
        params
    } else {
        add_param(add_params(params, ps.drop_last()), ps.last())
    }
}

/// No two names have the same text.
pub open spec fn distinct_names(params: Seq<IdentModel>) -> bool {
    forall|i: int, j: int| 0 <= i < j < params.len() ==> #[trigger] params[i].name != #[trigger] params[j].name
}

/// Collects the bind parameters met while visiting a syntax tree.
#[derive(Debug)]
pub struct BindParamsBuilder {
    params: Vec<Ident>,
}

impl View for BindParamsBuilder {
    type V = Seq<IdentModel>;

    closed spec fn view(&self) -> Seq<IdentModel> {
        idents_view(self.params@)
    }
}

/// The bind parameters of a statement or query.
#[derive(Debug)]
pub struct BindParams {
    params: Vec<Ident>,
}

impl View for BindParams {
    type V = Seq<IdentModel>;

    closed spec fn view(&self) -> Seq<IdentModel> {
        idents_view(self.params@)
    }
}

impl BindParamsBuilder {
    pub fn new() -> (builder: BindParamsBuilder)
        ensures
            builder@ == Seq::<IdentModel>::empty(),
    {
        let builder = BindParamsBuilder { params: Vec::new() };
        assert(builder@ =~= Seq::<IdentModel>::empty());
        builder
    }

    /// Records a bind parameter, unless one of the same name was recorded.
    pub fn visit_bind_param(&mut self, bind_param: &BindParam)
        ensures
            final(self)@ == add_param(old(self)@, bind_param.name@),
    {
        let name = &bind_param.name;
        let mut i: usize = 0;
        while i < self.params.len()
            invariant
                i <= self.params.len(),
                self@ == old(self)@,
                name == &bind_param.name,
                forall|k: int| 0 <= k < i ==> #[trigger] self@[k].name != name@.name,
            decreases self.params.len() - i,
        {
            if str_eq(self.params[i].name.as_str(), name.name.as_str()) {
                assert(self@[i as int] == self.params@[i as int]@);
                assert(self@[i as int].name == name@.name);
                assert(has_name(self@, name@.name));
                return;
            }
            assert(self@[i as int] == self.params@[i as int]@);
            i += 1;
        }
        let ghost m = name@;
        self.params.push(name.duplicate());
        assert(self@ =~= old(self)@.push(m));
    }

    pub fn build(self) -> (params: BindParams)
        ensures
            params@ == self@,
    {
        BindParams { params: self.params }
    }
}

impl BindParams {
    pub fn is_empty(&self) -> (empty: bool)
        ensures
            empty == (self@.len() == 0),
    {
        self.params.len() == 0
    }

    pub fn params(&self) -> (params: &Vec<Ident>)
        ensures
            idents_view(params@) == self@,
    {
        &self.params
    }
}

// ---------------------------------------------------------------------------
// What the bind parameters generate.
// ---------------------------------------------------------------------------

/// The module of one bind parameter, which names it and gives its ordinal.
pub open spec fn bind_param_module(name: IdentModel, ordinal: int) -> Seq<TokenModel> {
    quote_tokens(
        "pub(super) mod $ { pub const BIND_PARAM: ::kosame::expr::BindParam = ::kosame::expr::BindParam::new($, $); }"@,
        seq![seq![TokenModel::Ident(name)], str_tok(name.name), seq![literal_tok(decimal((ordinal as u32) as nat) + "u32"@)]],
    )
}

/// The modules of the parameters, numbered from 0.
pub open spec fn bind_param_modules(params: Seq<IdentModel>) -> Seq<TokenModel>
    decreases params.len(),
{
    if params.len() == 0 {
        Seq::empty()
    } else {
        bind_param_modules(params.drop_last()) + bind_param_module(params.last(), params.len() - 1)
    }
}

/// `pub name: &'a (dyn ToSql + Sync)`.
pub open spec fn param_field(name: IdentModel) -> Seq<TokenModel> {
    quote_tokens("pub $: &'a (dyn ::kosame::driver::postgres_types::ToSql + ::std::marker::Sync)"@, seq![seq![TokenModel::Ident(name)]])
}

pub open spec fn param_fields(params: Seq<IdentModel>) -> Seq<Seq<TokenModel>>
    decreases params.len(),
{
    if params.len() == 0 {
        Seq::empty()
    } else {
        param_fields(params.drop_last()).push(param_field(params.last()))
    }
}

/// `self.name`.
pub open spec fn self_field(name: IdentModel) -> Seq<TokenModel> {
    quote_tokens("self.$"@, seq![seq![TokenModel::Ident(name)]])
}

pub open spec fn self_fields(params: Seq<IdentModel>) -> Seq<Seq<TokenModel>>
    decreases params.len(),
{
    if params.len() == 0 {
        Seq::empty()
    } else {
        self_fields(params.drop_last()).push(self_field(params.last()))
    }
}

/// `<'a>` where there is a parameter to borrow, else nothing.
pub open spec fn params_lifetime(params: Seq<IdentModel>) -> Seq<TokenModel> {
    if params.len() > 0 {
        quote_tokens("<'a>"@, Seq::empty())
    } else {
        Seq::empty()
    }
}

/// The `params` module, the `Params` struct with a field per parameter and,
/// with the `postgres-types` feature, the conversion of `Params` to what the
/// driver takes.
pub open spec fn bind_params_tokens(params: Seq<IdentModel>, features: Features) -> Seq<TokenModel> {
    quote_tokens(
        "mod params { $ } #[derive(Debug, Clone)] pub struct Params $ { $ }"@,
        seq![bind_param_modules(params), params_lifetime(params), joined(param_fields(params))],
    ) + if features.postgres_types {
        quote_tokens(
            "impl<'a> ::kosame::params::Params<Vec<&'a (dyn ::kosame::driver::postgres_types::ToSql + ::std::marker::Sync + 'a)>> for Params $ { fn to_driver(&self) -> Vec<&'a (dyn ::kosame::driver::postgres_types::ToSql + ::std::marker::Sync + 'a)> { vec![$] } }"@,
            seq![params_lifetime(params), joined(self_fields(params))],
        )
    } else {
        Seq::empty()
    }
}

/// The name `bind_param_k`.
pub open spec fn renamed_param(k: int) -> Seq<char> {
    "bind_param_"@ + decimal(k as nat)
}

/// `let bind_param_k = &name;` for each parameter.
pub open spec fn closure_renames(params: Seq<IdentModel>) -> Seq<TokenModel>
    decreases params.len(),
{
    if params.len() == 0 {
        Seq::empty()
    } else {
        closure_renames(params.drop_last()) + quote_tokens(
            "let $ = &$;"@,
            seq![seq![ident_tok(renamed_param(params.len() - 1))], seq![TokenModel::Ident(params.last())]],
        )
    }
}

/// `name: bind_param_k,` for each parameter.
pub open spec fn closure_fields(params: Seq<IdentModel>) -> Seq<TokenModel>
    decreases params.len(),
{
    if params.len() == 0 {
        Seq::empty()
    } else {
        closure_fields(params.drop_last()) + quote_tokens(
            "$: $,"@,
            seq![seq![TokenModel::Ident(params.last())], seq![ident_tok(renamed_param(params.len() - 1))]],
        )
    }
}

/// Borrows each parameter under a name of its own, then gathers them in the
/// module's `Params`, bound to `closure`.
pub open spec fn closure_tokens(module: IdentModel, params: Seq<IdentModel>) -> Seq<TokenModel> {
    closure_renames(params) + quote_tokens(
        "let closure = $::Params { $ };"@,
        seq![seq![TokenModel::Ident(module)], closure_fields(params)],
    )
}

fn ident_run(i: &Ident) -> (v: Vec<TokenTree>)
    ensures
        tts_view(v@) == seq![TokenModel::Ident(i@)],
{
    single(TokenTree::Ident(i.duplicate()))
}

fn renamed_ident(k: usize) -> (v: Vec<TokenTree>)
    ensures
        tts_view(v@) == seq![ident_tok(renamed_param(k as int))],
{
    let mut name = String::from_str("bind_param_");
    name.append(decimal_text(k as u64).as_str());
    single(TokenTree::Ident(Ident::new(name, call_site_span())))
}

impl BindParams {
    /// Appends the `params` module and the `Params` struct.
    pub fn to_tokens(&self, out: &mut Vec<TokenTree>, features: Features)
        ensures
            tts_view(final(out)@) == tts_view(old(out)@) + bind_params_tokens(self@, features),
    {
        let ghost ps = self@;
        let mut modules: Vec<TokenTree> = Vec::new();
        assert(tts_view(modules@) =~= Seq::<TokenModel>::empty());
        let mut fields: Vec<Vec<TokenTree>> = Vec::new();
        assert(args_view(fields@) =~= Seq::<Seq<TokenModel>>::empty());
        let mut selfs: Vec<Vec<TokenTree>> = Vec::new();
        assert(args_view(selfs@) =~= Seq::<Seq<TokenModel>>::empty());
        let mut i: usize = 0;
        while i < self.params.len()
            invariant
                i <= self.params.len(),
                ps == self@,
                ps.len() == self.params.len(),
                tts_view(modules@) == bind_param_modules(ps.subrange(0, i as int)),
                args_view(fields@) == param_fields(ps.subrange(0, i as int)),
                args_view(selfs@) == self_fields(ps.subrange(0, i as int)),
            decreases self.params.len() - i,
        {
            let name = &self.params[i];
            assert(ps[i as int] == name@);
            #[verifier::truncate]
            let ordinal: u32 = i as u32;
            let m = code_with(
                "pub(super) mod $ { pub const BIND_PARAM: ::kosame::expr::BindParam = ::kosame::expr::BindParam::new($, $); }",
                args3(ident_run(name), single(string_literal(name.name.as_str())), single(suffixed_literal(ordinal as u64, "u32"))),
            );
            push_all(&mut modules, m);
            let f = code_with("pub $: &'a (dyn ::kosame::driver::postgres_types::ToSql + ::std::marker::Sync)", args1(ident_run(name)));
            let ghost fm = tts_view(f@);
            fields.push(f);
            let g = code_with("self.$", args1(ident_run(name)));
            let ghost gm = tts_view(g@);
            selfs.push(g);
            proof {
                let sub = ps.subrange(0, i + 1);
                assert(sub.drop_last() =~= ps.subrange(0, i as int));
                assert(sub.last() == ps[i as int]);
                assert(str_tok(name@.name) =~= seq![literal_tok(crate::emit::str_literal_text(name@.name))]);
                assert(tts_view(modules@) =~= bind_param_modules(sub));
                assert(args_view(fields@) =~= param_fields(sub));
                assert(args_view(selfs@) =~= self_fields(sub));
            }
            i += 1;
        }
        assert(ps.subrange(0, i as int) =~= ps);
        let lifetime = if self.params.len() > 0 { code("<'a>") } else {
            let v: Vec<TokenTree> = Vec::new();
            assert(tts_view(v@) =~= Seq::<TokenModel>::empty());
            v
        };
        let lifetime2 = crate::token::copy_stream(&lifetime);
        quote_into(
            out,
            "mod params { $ } #[derive(Debug, Clone)] pub struct Params $ { $ }",
            &args3(modules, lifetime, join_parts(fields)),
        );
        if features.postgres_types {
            quote_into(
                out,
                "impl<'a> ::kosame::params::Params<Vec<&'a (dyn ::kosame::driver::postgres_types::ToSql + ::std::marker::Sync + 'a)>> for Params $ { fn to_driver(&self) -> Vec<&'a (dyn ::kosame::driver::postgres_types::ToSql + ::std::marker::Sync + 'a)> { vec![$] } }",
                &args2(lifetime2, join_parts(selfs)),
            );
        }
    }

    /// Tokens that borrow each parameter and gather the borrows in the
    /// `Params` of the module `module_name`, bound to `closure`.
    pub fn to_closure_token_stream(&self, module_name: &Ident) -> (toks: Vec<TokenTree>)
        ensures
            tts_view(toks@) == closure_tokens(module_name@, self@),
    {
        let ghost ps = self@;
        let mut renames: Vec<TokenTree> = Vec::new();
        assert(tts_view(renames@) =~= Seq::<TokenModel>::empty());
        let mut fields: Vec<TokenTree> = Vec::new();
        assert(tts_view(fields@) =~= Seq::<TokenModel>::empty());
        let mut i: usize = 0;
        while i < self.params.len()
            invariant
                i <= self.params.len(),
                ps == self@,
                ps.len() == self.params.len(),
                tts_view(renames@) == closure_renames(ps.subrange(0, i as int)),
                tts_view(fields@) == closure_fields(ps.subrange(0, i as int)),
            decreases self.params.len() - i,
        {
            let name = &self.params[i];
            assert(ps[i as int] == name@);
            push_all(&mut renames, code_with("let $ = &$;", args2(renamed_ident(i), ident_run(name))));
            push_all(&mut fields, code_with("$: $,", args2(ident_run(name), renamed_ident(i))));
            proof {
                let sub = ps.subrange(0, i + 1);
                assert(sub.drop_last() =~= ps.subrange(0, i as int));
                assert(sub.last() == ps[i as int]);
                assert(tts_view(renames@) =~= closure_renames(sub));
                assert(tts_view(fields@) =~= closure_fields(sub));
            }
            i += 1;
        }
        assert(ps.subrange(0, i as int) =~= ps);
        quote_into(&mut renames, "let closure = $::Params { $ };", &args2(ident_run(module_name), fields));
        renames
    }
}

// ---------------------------------------------------------------------------
// Laws: the names are collected once each, in the order of first use.
// ---------------------------------------------------------------------------

/// Adding names one after the other is adding the first ones, then the rest.
pub proof fn lemma_add_params_concat(params: Seq<IdentModel>, xs: Seq<IdentModel>, ys: Seq<IdentModel>)
    ensures
        add_params(params, xs + ys) == add_params(add_params(params, xs), ys),
    decreases ys.len(),
{
    if ys.len() == 0 {
        assert(xs + ys =~= xs);
    } else {
        assert((xs + ys).drop_last() =~= xs + ys.drop_last());
        assert((xs + ys).last() == ys.last());
        lemma_add_params_concat(params, xs, ys.drop_last());
    }
}

/// The collected names stay distinct; a name is collected if and only if it
/// was collected before or is among the added ones; and names collected before
/// keep their places.
pub proof fn lemma_add_params(params: Seq<IdentModel>, ps: Seq<IdentModel>)
    requires
        distinct_names(params),
    ensures
        distinct_names(add_params(params, ps)),
        forall|n: Seq<char>| #[trigger] has_name(add_params(params, ps), n) <==> (has_name(params, n) || has_name(ps, n)),
        params.len() <= add_params(params, ps).len(),
        add_params(params, ps).subrange(0, params.len() as int) == params,
    decreases ps.len(),
{
    if ps.len() > 0 {
        let prev = add_params(params, ps.drop_last());
        lemma_add_params(params, ps.drop_last());
        let res = add_params(params, ps);
        assert forall|n: Seq<char>| #[trigger] has_name(res, n) <==> (has_name(params, n) || has_name(ps, n)) by {
            if has_name(ps, n) {
                let i = choose|i: int| 0 <= i < ps.len() && #[trigger] ps[i].name == n;
                if i < ps.len() - 1 {
                    assert(ps.drop_last()[i].name == n);
                }
            }
            if has_name(ps.drop_last(), n) {
                let i = choose|i: int| 0 <= i < ps.drop_last().len() && #[trigger] ps.drop_last()[i].name == n;
                assert(ps[i].name == n);
            }
            if has_name(prev, n) {
                let i = choose|i: int| 0 <= i < prev.len() && #[trigger] prev[i].name == n;
                assert(res[i].name == n);
            }
            if has_name(res, n) {
                let i = choose|i: int| 0 <= i < res.len() && #[trigger] res[i].name == n;
                if i < prev.len() {
                    assert(prev[i].name == n);
                } else {
                    assert(ps[ps.len() - 1].name == n);
                }
            }
            if n == ps.last().name && !has_name(prev, n) {
                assert(res[prev.len() as int].name == n);
            }
        }
        assert(res.subrange(0, params.len() as int) =~= params) by {
            assert(prev.subrange(0, params.len() as int) == params);
        }
    }
}

/// Visiting bind parameters `ps` one after the other from an empty builder
/// collects each name once, in the order in which it is first used: the
/// collected parameters are the first uses of their names in `ps`, at
/// increasing positions `f`; every name of `ps` is collected; and nothing is
/// collected exactly when there was nothing to visit.
pub proof fn lemma_first_uses(ps: Seq<IdentModel>) -> (f: Seq<int>)
    ensures
        distinct_names(add_params(Seq::empty(), ps)),
        forall|n: Seq<char>| #[trigger] has_name(add_params(Seq::empty(), ps), n) <==> has_name(ps, n),
        (add_params(Seq::empty(), ps).len() == 0) <==> (ps.len() == 0),
        f.len() == add_params(Seq::empty(), ps).len(),
        forall|i: int| 0 <= i < f.len() ==> 0 <= #[trigger] f[i] < ps.len() && add_params(Seq::empty(), ps)[i] == ps[f[i]],
        forall|i: int, m: int| #![trigger f[i], ps[m]] 0 <= i < f.len() && 0 <= m < f[i] ==> ps[m].name != ps[f[i]].name,
        forall|i: int, j: int| 0 <= i < j < f.len() ==> #[trigger] f[i] < #[trigger] f[j],
    decreases ps.len(),
{
    let none = Seq::<IdentModel>::empty();
    assert(distinct_names(none));
    lemma_add_params(none, ps);
    assert forall|n: Seq<char>| !has_name(none, n) by {}
    if ps.len() == 0 {
        Seq::empty()
    } else {
        let pre = ps.drop_last();
        let x = ps.last();
        let g = lemma_first_uses(pre);
        let r = add_params(none, pre);
        assert(has_name(ps, x.name)) by {
            assert(ps[ps.len() - 1].name == x.name);
        }
        assert(add_params(none, ps).len() > 0);
        if has_name(r, x.name) {
            assert(add_params(none, ps) == r);
            assert forall|i: int, m: int| #![trigger g[i], ps[m]] 0 <= i < g.len() && 0 <= m < g[i] implies ps[m].name != ps[g[i]].name by {
                assert(ps[m] == pre[m]);
                assert(ps[g[i]] == pre[g[i]]);
            }
            assert forall|i: int| 0 <= i < g.len() implies 0 <= #[trigger] g[i] < ps.len() && add_params(none, ps)[i] == ps[g[i]] by {
                assert(ps[g[i]] == pre[g[i]]);
            }
            g
        } else {
            let f = g.push(pre.len() as int);
            assert(add_params(none, ps) == r.push(x));
            assert(!has_name(pre, x.name));
            assert forall|m: int| 0 <= m < pre.len() implies ps[m].name != x.name by {
                assert(ps[m] == pre[m]);
                if pre[m].name == x.name {
                    assert(has_name(pre, x.name));
                }
            }
            assert forall|i: int| 0 <= i < f.len() implies 0 <= #[trigger] f[i] < ps.len() && add_params(none, ps)[i] == ps[f[i]] by {
                if i < g.len() {
                    assert(f[i] == g[i]);
                    assert(ps[g[i]] == pre[g[i]]);
                }
            }
            assert forall|i: int, m: int| #![trigger f[i], ps[m]] 0 <= i < f.len() && 0 <= m < f[i] implies ps[m].name != ps[f[i]].name by {
                if i < g.len() {
                    assert(f[i] == g[i]);
                    assert(ps[m] == pre[m]);
                    assert(ps[g[i]] == pre[g[i]]);
                }
            }
            assert forall|i: int, j: int| 0 <= i < j < f.len() implies #[trigger] f[i] < #[trigger] f[j] by {
                if j < g.len() {
                    assert(f[i] == g[i] && f[j] == g[j]);
                } else {
                    assert(f[i] == g[i]);
                }
            }
            f
        }
    }
}

} // verus!
