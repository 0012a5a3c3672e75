//! The statement builder: renders the `CREATE FUNCTION` / `CREATE AGGREGATE`
//! SQL text with its ordered parameter list for each function kind, and
//! infers an aggregate's lifecycle hooks from WIT interface text when the
//! caller does not supply them.

use vstd::prelude::*;
use vstd::string::{StrSliceExecFns, StringExecFns};
use crate::arguments::{
    abi_sql, opt_view, shared_fits, source_fits, spec_unpack, spec_validate, AggregateFunction,
    Functions, HookNames, ImportSource, ManualAggregateImports, SharedFunctionOptions,
    TableFunction, UserFunction,
};
use crate::encoding::{base64_encode, base64_encoding};
use crate::errors::{BuildError, ErrSpec};
use crate::text::{
    candidate_of, chars_of, contains_seq, contains_str, count_char, first_index_of,
    lemma_count_char_absent, lemma_count_char_concat, lemma_first_index, lemma_first_index_at,
    spec_lines, split_lines, string_of, subvec, underscore_dashes, underscored,
};

verus! {

/// A lifecycle role of an aggregate's Wasm module.
#[derive(Copy, Clone, Debug, PartialEq, Eq, Structural)]
pub enum MemberFunction {
    Init,
    Iterate,
    Merge,
    Terminate,
    Serialize,
    Deserialize,
}

/// The role a WIT declaration name is classified into, by first-match
/// keyword rules in a fixed priority order.  A name containing `wit` is
/// never a candidate; a name matching no rule is ignored.
pub open spec fn spec_member_role(name: Seq<char>) -> Option<MemberFunction> {
    if contains_seq(name, "wit"@) {
        None
    } else if contains_seq(name, "init"@) || contains_seq(name, "new"@) {
        Some(MemberFunction::Init)
    } else if contains_seq(name, "iter"@) || contains_seq(name, "update"@) || contains_seq(
        name,
        "add"@,
    ) {
        Some(MemberFunction::Iterate)
    } else if contains_seq(name, "merge"@) {
        Some(MemberFunction::Merge)
    } else if contains_seq(name, "terminate"@) || contains_seq(name, "get"@) || contains_seq(
        name,
        "finalize"@,
    ) {
        Some(MemberFunction::Terminate)
    } else if contains_seq(name, "deserialize"@) || contains_seq(name, "decode"@) {
        Some(MemberFunction::Deserialize)
    } else if contains_seq(name, "serialize"@) || contains_seq(name, "encode"@) {
        Some(MemberFunction::Serialize)
    } else {
        None
    }
}

/// Classifies a candidate declaration name given as characters.
fn role_of_chars(name: &Vec<char>) -> (r: Option<MemberFunction>)
    ensures
        r == spec_member_role(name@),
{
    if contains_str(name, "wit") {
        None
    } else if contains_str(name, "init") || contains_str(name, "new") {
        Some(MemberFunction::Init)
    } else if contains_str(name, "iter") || contains_str(name, "update") || contains_str(
        name,
        "add",
    ) {
        Some(MemberFunction::Iterate)
    } else if contains_str(name, "merge") {
        Some(MemberFunction::Merge)
    } else if contains_str(name, "terminate") || contains_str(name, "get") || contains_str(
        name,
        "finalize",
    ) {
        Some(MemberFunction::Terminate)
    } else if contains_str(name, "deserialize") || contains_str(name, "decode") {
        Some(MemberFunction::Deserialize)
    } else if contains_str(name, "serialize") || contains_str(name, "encode") {
        Some(MemberFunction::Serialize)
    } else {
        None
    }
}

impl MemberFunction {
    /// Classifies a candidate declaration name, by the keyword rules of
    /// [`spec_member_role`].
    pub fn from_name(name: &str) -> (r: Option<MemberFunction>)
        ensures
            r == spec_member_role(name@),
    {
        let cs = chars_of(name);
        role_of_chars(&cs)
    }
}

/// The hook name stored for `role` in `h`.
pub open spec fn hook_get(h: HookNames, role: MemberFunction) -> Option<Seq<char>> {
    match role {
        MemberFunction::Init => h.init,
        MemberFunction::Iterate => h.iter,
        MemberFunction::Merge => h.merge,
        MemberFunction::Terminate => h.terminate,
        MemberFunction::Serialize => h.serialize,
        MemberFunction::Deserialize => h.deserialize,
    }
}

/// `h` with the name for `role` set to `v`.
pub open spec fn hook_set(h: HookNames, role: MemberFunction, v: Seq<char>) -> HookNames {
    match role {
        MemberFunction::Init => HookNames { init: Some(v), ..h },
        MemberFunction::Iterate => HookNames { iter: Some(v), ..h },
        MemberFunction::Merge => HookNames { merge: Some(v), ..h },
        MemberFunction::Terminate => HookNames { terminate: Some(v), ..h },
        MemberFunction::Serialize => HookNames { serialize: Some(v), ..h },
        MemberFunction::Deserialize => HookNames { deserialize: Some(v), ..h },
    }
}

/// The hook set with every role absent.
pub open spec fn empty_hooks() -> HookNames {
    HookNames {
        init: None,
        iter: None,
        merge: None,
        terminate: None,
        serialize: None,
        deserialize: None,
    }
}

/// What one WIT line contributes to the hook set `h`.  Only lines holding a
/// `func(` marker are considered; the candidate name is the text before the
/// first colon; a classified candidate is stored with dashes rewritten to
/// underscores; a second match for an already-assigned role is ambiguous.
pub open spec fn spec_line_step(h: HookNames, line: Seq<char>) -> Result<HookNames, ErrSpec> {
    if !contains_seq(line, "func("@) {
        Ok(h)
    } else {
        let cand = candidate_of(line);
        match spec_member_role(cand) {
            None => Ok(h),
            Some(role) => match hook_get(h, role) {
                None => Ok(hook_set(h, role, underscored(cand))),
                Some(prev) => Err(ErrSpec::AmbiguousMemberFunction(cand, prev)),
            },
        }
    }
}

/// The hook set obtained by folding [`spec_line_step`] over `lines`,
/// starting from `h`.
pub open spec fn spec_infer_lines(h: HookNames, lines: Seq<Seq<char>>) -> Result<
    HookNames,
    ErrSpec,
>
    decreases lines.len(),
{
    if lines.len() == 0 {
        Ok(h)
    } else {
        match spec_line_step(h, lines[0]) {
            Ok(h2) => spec_infer_lines(h2, lines.drop_first()),
            Err(e) => Err(e),
        }
    }
}

/// The hook set inferred from the WIT text `text`.
pub open spec fn spec_infer(text: Seq<char>) -> Result<HookNames, ErrSpec> {
    spec_infer_lines(empty_hooks(), spec_lines(text))
}

/// Stores `cand` (dashes rewritten to underscores) for `role`, or reports
/// the ambiguity when the role already has a name.
fn assign_role(hooks: &mut ManualAggregateImports, role: MemberFunction, cand: &Vec<char>) -> (r:
    Result<(), BuildError>)
    ensures
        match r {
            Ok(()) => hook_get(old(hooks)@, role) is None && final(hooks)@ == hook_set(
                old(hooks)@,
                role,
                underscored(cand@),
            ),
            Err(e) => {
                &&& hook_get(old(hooks)@, role) is Some
                &&& final(hooks)@ == old(hooks)@
                &&& e@ == ErrSpec::AmbiguousMemberFunction(
                    cand@,
                    hook_get(old(hooks)@, role)->0,
                )
            },
        },
{
    match role {
        MemberFunction::Init => match &hooks.init {
            Some(prev) => Err(BuildError::AmbiguousMemberFunction(string_of(cand), prev.clone())),
            None => {
                hooks.init = Some(string_of(&underscore_dashes(cand)));
                Ok(())
            },
        },
        MemberFunction::Iterate => match &hooks.iter {
            Some(prev) => Err(BuildError::AmbiguousMemberFunction(string_of(cand), prev.clone())),
            None => {
                hooks.iter = Some(string_of(&underscore_dashes(cand)));
                Ok(())
            },
        },
        MemberFunction::Merge => match &hooks.merge {
            Some(prev) => Err(BuildError::AmbiguousMemberFunction(string_of(cand), prev.clone())),
            None => {
                hooks.merge = Some(string_of(&underscore_dashes(cand)));
                Ok(())
            },
        },
        MemberFunction::Terminate => match &hooks.terminate {
            Some(prev) => Err(BuildError::AmbiguousMemberFunction(string_of(cand), prev.clone())),
            None => {
                hooks.terminate = Some(string_of(&underscore_dashes(cand)));
                Ok(())
            },
        },
        MemberFunction::Serialize => match &hooks.serialize {
            Some(prev) => Err(BuildError::AmbiguousMemberFunction(string_of(cand), prev.clone())),
            None => {
                hooks.serialize = Some(string_of(&underscore_dashes(cand)));
                Ok(())
            },
        },
        MemberFunction::Deserialize => match &hooks.deserialize {
            Some(prev) => Err(BuildError::AmbiguousMemberFunction(string_of(cand), prev.clone())),
            None => {
                hooks.deserialize = Some(string_of(&underscore_dashes(cand)));
                Ok(())
            },
        },
    }
}

/// Derives the aggregate member functions from WIT interface text, by the
/// line-oriented keyword heuristic of [`spec_infer`].
pub fn try_extract_member_functions_from_wit(source: &str) -> (r: Result<
    ManualAggregateImports,
    BuildError,
>)
    ensures
        match r {
            Ok(m) => spec_infer(source@) == Ok::<HookNames, ErrSpec>(m@),
            Err(e) => spec_infer(source@) == Err::<HookNames, ErrSpec>(e@),
        },
{
    let text = chars_of(source);
    let lines = split_lines(&text);
    let ghost all: Seq<Seq<char>> = lines.deep_view();
    let mut hooks = ManualAggregateImports::empty();
    let n = lines.len();
    let mut i: usize = 0;
    proof {
        assert(hooks@ == empty_hooks());
        assert(all.subrange(0, n as int) =~= all);
    }
    while i < n
        invariant
            n == lines@.len(),
            all == lines.deep_view(),
            all.len() == n,
            i <= n,
            spec_infer(source@) == spec_infer_lines(
                hooks@,
                all.subrange(i as int, n as int),
            ),
        decreases n - i,
    {
        let line = &lines[i];
        let ghost rest = all.subrange(i as int, n as int);
        let ghost h0 = hooks@;
        proof {
            assert(all[i as int] == lines@[i as int]@);
            assert(rest[0] == line@);
            assert(rest.drop_first() =~= all.subrange(i + 1, n as int));
        }
        if contains_str(line, "func(") {
            let cand = prefix_before_colon(line);
            match role_of_chars(&cand) {
                Some(role) => match assign_role(&mut hooks, role, &cand) {
                    Ok(()) => {
                        proof {
                            assert(spec_line_step(h0, line@) == Ok::<HookNames, ErrSpec>(hooks@));
                        }
                    },
                    Err(e) => {
                        proof {
                            assert(spec_line_step(h0, line@) == Err::<HookNames, ErrSpec>(e@));
                            assert(spec_infer_lines(h0, rest) == Err::<HookNames, ErrSpec>(e@));
                        }
                        return Err(e);
                    },
                },
                None => {
                    proof {
                        assert(spec_line_step(h0, line@) == Ok::<HookNames, ErrSpec>(hooks@));
                    }
                },
            }
        } else {
            proof {
                assert(spec_line_step(h0, line@) == Ok::<HookNames, ErrSpec>(hooks@));
            }
        }
        proof {
            assert(spec_infer_lines(h0, rest) == spec_infer_lines(
                hooks@,
                rest.drop_first(),
            ));
        }
        i = i + 1;
    }
    proof {
        assert(all.subrange(n as int, n as int) =~= Seq::<Seq<char>>::empty());
        assert(spec_infer(source@) == Ok::<HookNames, ErrSpec>(hooks@));
    }
    Ok(hooks)
}

/// The text of `line` before its first colon, or all of it when it has
/// none.
fn prefix_before_colon(line: &Vec<char>) -> (r: Vec<char>)
    ensures
        r@ == candidate_of(line@),
{
    let n = line.len();
    let mut i: usize = 0;
    while i < n
        invariant
            n == line@.len(),
            i <= n,
            forall|j: int| 0 <= j < i ==> line@[j] != ':',
        decreases n - i,
    {
        if line[i] == ':' {
            proof {
                lemma_first_index_at(line@, ':', i as int);
            }
            return subvec(line, 0, i);
        }
        i = i + 1;
    }
    proof {
        lemma_first_index(line@, ':');
        if first_index_of(line@, ':') >= 0 {
            assert(line@[first_index_of(line@, ':')] == ':');
        }
        assert(line@.subrange(0, n as int) =~= line@);
    }
    subvec(line, 0, n)
}

/// `CREATE OR REPLACE ` when replacement is forced, else `CREATE `.
pub open spec fn create_prefix(force: bool) -> Seq<char> {
    if force {
        "CREATE OR REPLACE "@
    } else {
        "CREATE "@
    }
}

/// The SQL clause a source is imported with: inline text and local bytes
/// are embedded as base64, a remote URL is fetched by the server.
pub open spec fn source_fragment(s: ImportSource) -> Seq<char> {
    match s {
        ImportSource::Base64(_) => "FROM BASE64 ?"@,
        ImportSource::Bytes(_) => "FROM BASE64 ?"@,
        ImportSource::Url(_) => "FROM URL ?"@,
    }
}

/// The value bound to a source's placeholder: inline base64 text unchanged,
/// local bytes base64-encoded, a URL in its string form verbatim.
pub open spec fn source_param(s: ImportSource) -> Seq<char> {
    match s {
        ImportSource::Base64(t) => t@,
        ImportSource::Bytes(b) => base64_encoding(b@),
        ImportSource::Url(u) => u@,
    }
}

/// The optional ` WITH WIT <clause>` suffix.
pub open spec fn wit_clause(w: Option<ImportSource>) -> Seq<char> {
    match w {
        Some(s) => " WITH WIT "@ + source_fragment(s),
        None => Seq::empty(),
    }
}

/// The bound parameters of one statement, in placeholder order: the Wasm
/// clause's value first, then the WIT clause's when present.
pub open spec fn shared_params(o: SharedFunctionOptions) -> Seq<Seq<char>> {
    seq![source_param(o.wasm_source)] + match o.wit_source {
        Some(w) => seq![source_param(w)],
        None => Seq::empty(),
    }
}

/// The statement registering a scalar function.
pub open spec fn scalar_sql(f: UserFunction) -> Seq<char> {
    create_prefix(f.shared.force) + "FUNCTION "@ + f.shared.name@ + " AS WASM ABI "@ + abi_sql(
        f.shared.abi_type,
    ) + " "@ + source_fragment(f.shared.wasm_source) + wit_clause(f.shared.wit_source)
}

/// The statement registering a table-valued function: as the scalar one,
/// with `RETURNS TABLE` directly after the name.
pub open spec fn table_sql(f: TableFunction) -> Seq<char> {
    create_prefix(f.shared.force) + "FUNCTION "@ + f.shared.name@ + " RETURNS TABLE AS WASM ABI "@
        + abi_sql(f.shared.abi_type) + " "@ + source_fragment(f.shared.wasm_source) + wit_clause(
        f.shared.wit_source,
    )
}

/// The generated name of the argument at position `i`: successive single
/// letters.
pub open spec fn arg_letter(i: int) -> char {
    "abcdefghijklmnopqrstuvwxyz"@[i]
}

/// One named argument: the generated letter, a space, the type text.
pub open spec fn named_arg(i: int, t: Seq<char>) -> Seq<char> {
    seq![arg_letter(i)] + " "@ + t
}

/// The first `n` named arguments, comma-separated.
pub open spec fn named_args(types: Seq<Seq<char>>, n: int) -> Seq<char>
    decreases n,
{
    if n <= 0 {
        Seq::empty()
    } else if n == 1 {
        named_arg(0, types[0])
    } else {
        named_args(types, n - 1) + ","@ + named_arg(n - 1, types[n - 1])
    }
}

/// The rendered argument list: a single argument type stands bare, several
/// get generated letter names.
pub open spec fn args_text(types: Seq<Seq<char>>) -> Seq<char> {
    if types.len() == 1 {
        types[0]
    } else {
        named_args(types, types.len() as int)
    }
}

/// The optional serialize/deserialize tail of an aggregate statement.
pub open spec fn serde_clause(h: HookNames) -> Seq<char> {
    (match h.serialize {
        Some(s) => " SERIALIZE WITH "@ + s,
        None => Seq::empty(),
    }) + (match h.deserialize {
        Some(d) => " DESERIALIZE WITH "@ + d,
        None => Seq::empty(),
    })
}

/// The statement registering an aggregate function, given its resolved
/// hook set `h` (meaningful when the four required hooks are present).
pub open spec fn aggregate_sql(f: AggregateFunction, h: HookNames) -> Seq<char> {
    create_prefix(f.shared.force) + "AGGREGATE "@ + f.shared.name@ + "("@ + args_text(
        f.args.deep_view(),
    ) + ") RETURNS "@ + f.return_type@ + " WITH STATE "@ + f.state_type@ + " AS WASM ABI "@
        + abi_sql(f.shared.abi_type) + " "@ + source_fragment(f.shared.wasm_source) + wit_clause(
        f.shared.wit_source,
    ) + " INITIALIZE WITH "@ + h.init->0 + " ITERATE WITH "@ + h.iter->0 + " MERGE WITH "@
        + h.merge->0 + " TERMINATE WITH "@ + h.terminate->0 + serde_clause(h)
}

/// The hook set an aggregate build works with: the manual hooks as given,
/// else the set inferred from the WIT source, which is then mandatory.
pub open spec fn spec_resolved_hooks(f: AggregateFunction) -> Result<HookNames, ErrSpec> {
    match f.aggregate_imports {
        Some(m) => Ok(m@),
        None => match f.shared.wit_source {
            None => Err(ErrSpec::MissingConfiguration),
            Some(w) => match spec_unpack(w) {
                Ok(text) => spec_infer(text),
                Err(e) => Err(e),
            },
        },
    }
}

/// The outcome of building an aggregate statement: hooks are resolved and
/// validated, the argument list must fit the generated-name alphabet, and
/// then the statement is emitted with its parameters.
pub open spec fn spec_aggregate_build(f: AggregateFunction) -> Result<
    (Seq<char>, Seq<Seq<char>>),
    ErrSpec,
> {
    match spec_resolved_hooks(f) {
        Err(e) => Err(e),
        Ok(h) => match spec_validate(h) {
            Err(e) => Err(e),
            Ok(_) => if f.args.deep_view().len() > 26 {
                Err(ErrSpec::TooManyArguments)
            } else {
                Ok((aggregate_sql(f, h), shared_params(f.shared)))
            },
        },
    }
}

/// The outcome of building the statement for the selected function kind.
pub open spec fn spec_functions_build(f: Functions) -> Result<
    (Seq<char>, Seq<Seq<char>>),
    ErrSpec,
> {
    match f {
        Functions::Udf(u) => Ok((scalar_sql(u), shared_params(u.shared))),
        Functions::Tvf(t) => Ok((table_sql(t), shared_params(t.shared))),
        Functions::Udaf(a) => spec_aggregate_build(a),
    }
}

/// Renders SQL text with positional placeholders, appending each bound
/// value as its placeholder is emitted.
pub trait QueryBuilder {
    /// The sources involved are small enough to base64-encode without the
    /// encoded length overflowing: the one machine limit the renderer
    /// needs.
    spec fn fits(&self) -> bool;

    /// Renders this item's SQL text, appending the bound parameter values
    /// to `args` in the order their placeholders appear.
    fn build(&self, args: &mut Vec<String>) -> Result<String, BuildError>
        requires
            self.fits(),
    ;
}

impl QueryBuilder for ImportSource {
    open spec fn fits(&self) -> bool {
        source_fits(*self)
    }

    fn build(&self, args: &mut Vec<String>) -> (r: Result<String, BuildError>)
        ensures
            r is Ok,
            r matches Ok(f) ==> f@ == source_fragment(*self),
            final(args).deep_view() == old(args).deep_view().push(source_param(*self)),
    {
        let ghost a0 = args.deep_view();
        let fragment = match self {
            ImportSource::Base64(s) => {
                args.push(s.clone());
                String::from_str("FROM BASE64 ?")
            },
            ImportSource::Bytes(b) => {
                args.push(base64_encode(b));
                String::from_str("FROM BASE64 ?")
            },
            ImportSource::Url(u) => {
                args.push(u.clone());
                String::from_str("FROM URL ?")
            },
        };
        proof {
            assert(args.deep_view() =~~= a0.push(source_param(*self)));
        }
        Ok(fragment)
    }
}

/// Appends the shared `CREATE ... FUNCTION <name>` head to `sql`.
fn append_function_head(sql: &mut String, o: &SharedFunctionOptions)
    ensures
        final(sql)@ == old(sql)@ + create_prefix(o.force) + "FUNCTION "@ + o.name@,
{
    if o.force {
        sql.append("CREATE OR REPLACE ");
    } else {
        sql.append("CREATE ");
    }
    sql.append("FUNCTION ");
    sql.append(o.name.as_str());
}

impl QueryBuilder for UserFunction {
    open spec fn fits(&self) -> bool {
        shared_fits(self.shared)
    }

    fn build(&self, args: &mut Vec<String>) -> (r: Result<String, BuildError>)
        ensures
            r is Ok,
            r matches Ok(s) ==> s@ == scalar_sql(*self),
            final(args).deep_view() == old(args).deep_view() + shared_params(self.shared),
    {
        let ghost a0 = args.deep_view();
        let mut sql = String::new();
        append_function_head(&mut sql, &self.shared);
        sql.append(" AS WASM ABI ");
        sql.append(self.shared.abi_type.sql_text());
        sql.append(" ");
        let fragment = match self.shared.wasm_source.build(args) {
            Ok(f) => f,
            Err(e) => {
                return Err(e);
            },
        };
        sql.append(fragment.as_str());
        match &self.shared.wit_source {
            Some(w) => {
                sql.append(" WITH WIT ");
                let wf = match w.build(args) {
                    Ok(f) => f,
                    Err(e) => {
                        return Err(e);
                    },
                };
                sql.append(wf.as_str());
            },
            None => {},
        }
        proof {
            assert(sql@ =~= scalar_sql(*self));
            assert(args.deep_view() =~~= a0 + shared_params(self.shared));
        }
        Ok(sql)
    }
}

impl QueryBuilder for TableFunction {
    open spec fn fits(&self) -> bool {
        shared_fits(self.shared)
    }

    fn build(&self, args: &mut Vec<String>) -> (r: Result<String, BuildError>)
        ensures
            r is Ok,
            r matches Ok(s) ==> s@ == table_sql(*self),
            final(args).deep_view() == old(args).deep_view() + shared_params(self.shared),
    {
        let ghost a0 = args.deep_view();
        let mut sql = String::new();
        append_function_head(&mut sql, &self.shared);
        sql.append(" RETURNS TABLE AS WASM ABI ");
        sql.append(self.shared.abi_type.sql_text());
        sql.append(" ");
        let fragment = match self.shared.wasm_source.build(args) {
            Ok(f) => f,
            Err(e) => {
                return Err(e);
            },
        };
        sql.append(fragment.as_str());
        match &self.shared.wit_source {
            Some(w) => {
                sql.append(" WITH WIT ");
                let wf = match w.build(args) {
                    Ok(f) => f,
                    Err(e) => {
                        return Err(e);
                    },
                };
                sql.append(wf.as_str());
            },
            None => {},
        }
        proof {
            assert(sql@ =~= table_sql(*self));
            assert(args.deep_view() =~~= a0 + shared_params(self.shared));
        }
        Ok(sql)
    }
}

/// Renders the aggregate argument list of [`args_text`].
fn render_args(types: &Vec<String>) -> (r: String)
    requires
        types@.len() <= 26,
    ensures
        r@ == args_text(types.deep_view()),
{
    let ghost d = types.deep_view();
    if types.len() == 1 {
        let only = types[0].clone();
        proof {
            assert(d[0] == types@[0]@);
        }
        return only;
    }
    let letters = "abcdefghijklmnopqrstuvwxyz";
    proof {
        reveal_strlit("abcdefghijklmnopqrstuvwxyz");
    }
    let mut s = String::new();
    let mut i: usize = 0;
    while i < types.len()
        invariant
            types@.len() <= 26,
            d == types.deep_view(),
            letters@ == "abcdefghijklmnopqrstuvwxyz"@,
            letters@.len() == 26,
            i <= types@.len(),
            s@ == named_args(d, i as int),
        decreases types@.len() - i,
    {
        if i > 0 {
            s.append(",");
        }
        let letter = letters.substring_char(i, i + 1);
        s.append(letter);
        s.append(" ");
        s.append(types[i].as_str());
        proof {
            assert(d[i as int] == types@[i as int]@);
            assert(letter@ =~= seq![arg_letter(i as int)]);
            assert(s@ =~= named_args(d, i + 1));
        }
        i = i + 1;
    }
    s
}

impl QueryBuilder for AggregateFunction {
    open spec fn fits(&self) -> bool {
        shared_fits(self.shared)
    }

    fn build(&self, args: &mut Vec<String>) -> (r: Result<String, BuildError>)
        ensures
            match r {
                Ok(s) => spec_aggregate_build(*self) matches Ok(p) && s@ == p.0
                    && final(args).deep_view() == old(args).deep_view() + p.1,
                Err(e) => spec_aggregate_build(*self) == Err::<
                    (Seq<char>, Seq<Seq<char>>),
                    ErrSpec,
                >(e@) && final(args)@ == old(args)@,
            },
    {
        let ghost a0 = args.deep_view();
        let hooks = match self.resolved_hooks() {
            Ok(h) => h,
            Err(e) => {
                return Err(e);
            },
        };
        match hooks.validate() {
            Ok(_) => {},
            Err(e) => {
                return Err(e);
            },
        }
        if self.args.len() > 26 {
            return Err(BuildError::TooManyArguments);
        }
        let mut sql = String::new();
        if self.shared.force {
            sql.append("CREATE OR REPLACE ");
        } else {
            sql.append("CREATE ");
        }
        sql.append("AGGREGATE ");
        sql.append(self.shared.name.as_str());
        sql.append("(");
        let rendered = render_args(&self.args);
        sql.append(rendered.as_str());
        sql.append(") RETURNS ");
        sql.append(self.return_type.as_str());
        sql.append(" WITH STATE ");
        sql.append(self.state_type.as_str());
        sql.append(" AS WASM ABI ");
        sql.append(self.shared.abi_type.sql_text());
        sql.append(" ");
        let fragment = match self.shared.wasm_source.build(args) {
            Ok(f) => f,
            Err(e) => {
                return Err(e);
            },
        };
        sql.append(fragment.as_str());
        match &self.shared.wit_source {
            Some(w) => {
                sql.append(" WITH WIT ");
                let wf = match w.build(args) {
                    Ok(f) => f,
                    Err(e) => {
                        return Err(e);
                    },
                };
                sql.append(wf.as_str());
            },
            None => {},
        }
        // The validation above guarantees the four required hooks are
        // present; the absent arms below are provably unreachable.
        sql.append(" INITIALIZE WITH ");
        match &hooks.init {
            Some(name) => sql.append(name.as_str()),
            None => {
                return Err(BuildError::MissingConfiguration);
            },
        }
        sql.append(" ITERATE WITH ");
        match &hooks.iter {
            Some(name) => sql.append(name.as_str()),
            None => {
                return Err(BuildError::MissingConfiguration);
            },
        }
        sql.append(" MERGE WITH ");
        match &hooks.merge {
            Some(name) => sql.append(name.as_str()),
            None => {
                return Err(BuildError::MissingConfiguration);
            },
        }
        sql.append(" TERMINATE WITH ");
        match &hooks.terminate {
            Some(name) => sql.append(name.as_str()),
            None => {
                return Err(BuildError::MissingConfiguration);
            },
        }
        match &hooks.serialize {
            Some(name) => {
                sql.append(" SERIALIZE WITH ");
                sql.append(name.as_str());
            },
            None => {},
        }
        match &hooks.deserialize {
            Some(name) => {
                sql.append(" DESERIALIZE WITH ");
                sql.append(name.as_str());
            },
            None => {},
        }
        proof {
            assert(sql@ =~= aggregate_sql(*self, hooks@));
            assert(args.deep_view() =~~= a0 + shared_params(self.shared));
        }
        Ok(sql)
    }
}

impl AggregateFunction {
    /// The hook set this aggregate is built with: the manual hooks when
    /// supplied, else the set inferred from the WIT source.
    pub fn resolved_hooks(&self) -> (r: Result<ManualAggregateImports, BuildError>)
        ensures
            match r {
                Ok(m) => spec_resolved_hooks(*self) == Ok::<HookNames, ErrSpec>(m@),
                Err(e) => spec_resolved_hooks(*self) == Err::<HookNames, ErrSpec>(e@),
            },
    {
        match &self.aggregate_imports {
            Some(m) => Ok(m.clone()),
            None => match &self.shared.wit_source {
                None => Err(BuildError::MissingConfiguration),
                Some(w) => match w.unpack() {
                    Ok(text) => try_extract_member_functions_from_wit(text.as_str()),
                    Err(e) => Err(e),
                },
            },
        }
    }
}

impl QueryBuilder for Functions {
    open spec fn fits(&self) -> bool {
        match self {
            Functions::Udf(u) => u.fits(),
            Functions::Tvf(t) => t.fits(),
            Functions::Udaf(a) => a.fits(),
        }
    }

    fn build(&self, args: &mut Vec<String>) -> (r: Result<String, BuildError>)
        ensures
            match r {
                Ok(s) => spec_functions_build(*self) matches Ok(p) && s@ == p.0
                    && final(args).deep_view() == old(args).deep_view() + p.1,
                Err(e) => spec_functions_build(*self) == Err::<
                    (Seq<char>, Seq<Seq<char>>),
                    ErrSpec,
                >(e@) && final(args)@ == old(args)@,
            },
    {
        match self {
            Functions::Udf(f) => f.build(args),
            Functions::Tvf(f) => f.build(args),
            Functions::Udaf(f) => f.build(args),
        }
    }
}

/// A statement's SQL text paired with its bound parameter values, one per
/// positional placeholder, in emission order.
#[derive(Debug)]
pub struct ParameterizedStatement {
    pub sql_text: String,
    pub parameters: Vec<String>,
}

/// Builds the complete statement for the selected function kind.
pub fn build_statement(f: &Functions) -> (r: Result<ParameterizedStatement, BuildError>)
    requires
        f.fits(),
    ensures
        match r {
            Ok(st) => spec_functions_build(*f) matches Ok(p) && st.sql_text@ == p.0
                && st.parameters.deep_view() == p.1,
            Err(e) => spec_functions_build(*f) == Err::<(Seq<char>, Seq<Seq<char>>), ErrSpec>(
                e@,
            ),
        },
{
    let mut params: Vec<String> = Vec::new();
    match f.build(&mut params) {
        Ok(sql) => {
            proof {
                assert(params.deep_view() =~~= Seq::<Seq<char>>::empty() + params.deep_view());
            }
            Ok(ParameterizedStatement { sql_text: sql, parameters: params })
        },
        Err(e) => Err(e),
    }
}

/// The `?` occurrence count of every fixed fragment a scalar or table
/// statement is assembled from.
proof fn lemma_literal_counts()
    ensures
        count_char("CREATE "@, '?') == 0,
        count_char("CREATE OR REPLACE "@, '?') == 0,
        count_char("FUNCTION "@, '?') == 0,
        count_char(" AS WASM ABI "@, '?') == 0,
        count_char(" RETURNS TABLE AS WASM ABI "@, '?') == 0,
        count_char(" "@, '?') == 0,
        count_char("BASIC"@, '?') == 0,
        count_char("CANONICAL"@, '?') == 0,
        count_char(" WITH WIT "@, '?') == 0,
        count_char("FROM BASE64 ?"@, '?') == 1,
        count_char("FROM URL ?"@, '?') == 1,
{
    reveal_strlit("CREATE ");
    reveal_strlit("CREATE OR REPLACE ");
    reveal_strlit("FUNCTION ");
    reveal_strlit(" AS WASM ABI ");
    reveal_strlit(" RETURNS TABLE AS WASM ABI ");
    reveal_strlit(" ");
    reveal_strlit("BASIC");
    reveal_strlit("CANONICAL");
    reveal_strlit(" WITH WIT ");
    reveal_strlit("FROM BASE64 ?");
    reveal_strlit("FROM URL ?");
    reveal_with_fuel(count_char, 30);
}

/// One `?` in the clause of every source kind.
proof fn lemma_fragment_count(s: ImportSource)
    ensures
        count_char(source_fragment(s), '?') == 1,
{
    lemma_literal_counts();
}

/// The `?` count of the optional WIT clause equals the number of values it
/// binds.
proof fn lemma_wit_clause_count(w: Option<ImportSource>)
    ensures
        count_char(wit_clause(w), '?') == (match w {
            Some(_) => 1int,
            None => 0int,
        }),
{
    lemma_literal_counts();
    match w {
        Some(s) => {
            lemma_count_char_concat(" WITH WIT "@, source_fragment(s), '?');
            lemma_fragment_count(s);
        },
        None => {
            lemma_count_char_absent(Seq::empty(), '?');
        },
    }
}

/// Placeholder accounting for a scalar statement: the text before the Wasm
/// clause holds no `?`, the Wasm clause holds exactly one, the WIT clause
/// one more exactly when a WIT source is present, and the parameter list
/// has exactly that many entries, Wasm value first.
pub proof fn lemma_scalar_placeholders(f: UserFunction)
    requires
        count_char(f.shared.name@, '?') == 0,
    ensures
        count_char(scalar_sql(f), '?') == shared_params(f.shared).len(),
        count_char(
            create_prefix(f.shared.force) + "FUNCTION "@ + f.shared.name@ + " AS WASM ABI "@
                + abi_sql(f.shared.abi_type) + " "@,
            '?',
        ) == 0,
        count_char(source_fragment(f.shared.wasm_source), '?') == 1,
        count_char(wit_clause(f.shared.wit_source), '?') == (match f.shared.wit_source {
            Some(_) => 1int,
            None => 0int,
        }),
        shared_params(f.shared).len() == (match f.shared.wit_source {
            Some(_) => 2int,
            None => 1int,
        }),
        shared_params(f.shared)[0] == source_param(f.shared.wasm_source),
        f.shared.wit_source matches Some(w) ==> shared_params(f.shared)[1] == source_param(w),
{
    lemma_literal_counts();
    let a = create_prefix(f.shared.force);
    let b = a + "FUNCTION "@;
    let c = b + f.shared.name@;
    let d = c + " AS WASM ABI "@;
    let e = d + abi_sql(f.shared.abi_type);
    let g = e + " "@;
    let h = g + source_fragment(f.shared.wasm_source);
    lemma_count_char_concat(a, "FUNCTION "@, '?');
    lemma_count_char_concat(b, f.shared.name@, '?');
    lemma_count_char_concat(c, " AS WASM ABI "@, '?');
    lemma_count_char_concat(d, abi_sql(f.shared.abi_type), '?');
    lemma_count_char_concat(e, " "@, '?');
    lemma_count_char_concat(g, source_fragment(f.shared.wasm_source), '?');
    lemma_count_char_concat(h, wit_clause(f.shared.wit_source), '?');
    lemma_fragment_count(f.shared.wasm_source);
    lemma_wit_clause_count(f.shared.wit_source);
}

/// Placeholder accounting for a table-valued statement, as for the scalar
/// one.
pub proof fn lemma_table_placeholders(f: TableFunction)
    requires
        count_char(f.shared.name@, '?') == 0,
    ensures
        count_char(table_sql(f), '?') == shared_params(f.shared).len(),
        count_char(
            create_prefix(f.shared.force) + "FUNCTION "@ + f.shared.name@
                + " RETURNS TABLE AS WASM ABI "@ + abi_sql(f.shared.abi_type) + " "@,
            '?',
        ) == 0,
        count_char(source_fragment(f.shared.wasm_source), '?') == 1,
        count_char(wit_clause(f.shared.wit_source), '?') == (match f.shared.wit_source {
            Some(_) => 1int,
            None => 0int,
        }),
        shared_params(f.shared).len() == (match f.shared.wit_source {
            Some(_) => 2int,
            None => 1int,
        }),
        shared_params(f.shared)[0] == source_param(f.shared.wasm_source),
        f.shared.wit_source matches Some(w) ==> shared_params(f.shared)[1] == source_param(w),
{
    lemma_literal_counts();
    let a = create_prefix(f.shared.force);
    let b = a + "FUNCTION "@;
    let c = b + f.shared.name@;
    let d = c + " RETURNS TABLE AS WASM ABI "@;
    let e = d + abi_sql(f.shared.abi_type);
    let g = e + " "@;
    let h = g + source_fragment(f.shared.wasm_source);
    lemma_count_char_concat(a, "FUNCTION "@, '?');
    lemma_count_char_concat(b, f.shared.name@, '?');
    lemma_count_char_concat(c, " RETURNS TABLE AS WASM ABI "@, '?');
    lemma_count_char_concat(d, abi_sql(f.shared.abi_type), '?');
    lemma_count_char_concat(e, " "@, '?');
    lemma_count_char_concat(g, source_fragment(f.shared.wasm_source), '?');
    lemma_count_char_concat(h, wit_clause(f.shared.wit_source), '?');
    lemma_fragment_count(f.shared.wasm_source);
    lemma_wit_clause_count(f.shared.wit_source);
}

/// Whether replacement is forced for the selected kind.
pub open spec fn functions_force(f: Functions) -> bool {
    match f {
        Functions::Udf(u) => u.shared.force,
        Functions::Tvf(t) => t.shared.force,
        Functions::Udaf(a) => a.shared.force,
    }
}

/// A successfully built statement of every kind begins with
/// `CREATE OR REPLACE ` when replacement is forced, else with `CREATE `.
pub proof fn lemma_force_replace(f: Functions, q: Seq<char>, ps: Seq<Seq<char>>)
    requires
        spec_functions_build(f) == Ok::<(Seq<char>, Seq<Seq<char>>), ErrSpec>((q, ps)),
    ensures
        functions_force(f) ==> q.subrange(0, 18) == "CREATE OR REPLACE "@,
        !functions_force(f) ==> q.subrange(0, 7) == "CREATE "@,
{
    reveal_strlit("CREATE ");
    reveal_strlit("CREATE OR REPLACE ");
    let force = functions_force(f);
    let p = create_prefix(force);
    match f {
        Functions::Udf(u) => {
            assert(q.subrange(0, p.len() as int) =~= p);
        },
        Functions::Tvf(t) => {
            assert(q.subrange(0, p.len() as int) =~= p);
        },
        Functions::Udaf(a) => {
            match spec_resolved_hooks(a) {
                Ok(h) => {
                    assert(q == aggregate_sql(a, h));
                    assert(q.subrange(0, p.len() as int) =~= p);
                },
                Err(_) => {
                    assert(false);
                },
            }
        },
    }
}

/// Building the same descriptor twice yields the identical statement text
/// and parameter list.
pub proof fn lemma_build_deterministic(f1: Functions, f2: Functions)
    requires
        f1 == f2,
    ensures
        spec_functions_build(f1) == spec_functions_build(f2),
{
}

} // verus!
