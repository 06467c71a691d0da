//! The declaration layer: given an annotated type declaration, classify its
//! fields into injected dependencies and locally computed values, derive
//! parameter names for positional shapes, and emit the construction code.

use vstd::prelude::*;
use vstd::string::StrSliceExecFns;
use vstd::string::StringExecFns;

use crate::derive_input::Data;
use crate::derive_input::DeriveInput;
use crate::derive_input::Field;
use crate::derive_input::Fields;
use crate::derive_input::InjectExpr;
use crate::struct_kind::StructKind;

verus! {

/// An annotated declaration, reduced to what code generation needs: its
/// identifier, its generic parameters, and its shape.
pub struct InjectableStruct {
    pub ident: String,
    pub generics: crate::derive_input::Generics,
    pub kind: StructKind,
}

/// The shape that a declaration's field list induces.
pub open spec fn kind_of(fields: Fields) -> StructKind {
    match fields {
        Fields::Named(fs) => StructKind::Named(fs),
        Fields::Unnamed(fs) => StructKind::Unnamed(fs),
        Fields::Unit => StructKind::Unit,
    }
}

/// One ASCII uppercase letter.
pub open spec fn is_ascii_upper(c: char) -> bool {
    65 <= c as u32 && c as u32 <= 90
}

/// The ASCII lowercase counterpart of an ASCII uppercase letter.
pub open spec fn to_ascii_lower(c: char) -> char {
    (((c as u32) + 32) as u8) as char
}

/// What one character contributes to a snake-case conversion: an uppercase
/// letter is lowercased and, unless it opens the identifier, preceded by an
/// underscore; every other character is kept as it is.
pub open spec fn snake_fragment(c: char, first: bool) -> Seq<char> {
    if is_ascii_upper(c) {
        if first {
            seq![to_ascii_lower(c)]
        } else {
            seq!['_', to_ascii_lower(c)]
        }
    } else {
        seq![c]
    }
}

/// The snake-case conversion of the first `n` characters of an identifier.
pub open spec fn snake_prefix(s: Seq<char>, n: int) -> Seq<char>
    decreases n,
{
    if n <= 0 {
        Seq::empty()
    } else {
        snake_prefix(s, n - 1) + snake_fragment(s[n - 1], n - 1 == 0)
    }
}

/// Lower-case-with-underscores conversion of an identifier.
pub open spec fn snake_of(s: Seq<char>) -> Seq<char> {
    snake_prefix(s, s.len() as int)
}


/// A marker expression with grouping parentheses stripped.
pub open spec fn stripped(e: InjectExpr) -> InjectExpr
    decreases e,
{
    match e {
        InjectExpr::Paren(inner) => stripped(*inner),
        _ => e,
    }
}

/// The initializer generated for one locally computed field: a recognizable
/// closure is invoked with no arguments; any other expression falls back to
/// the field type's default value.
pub open spec fn factory_expr_of(e: InjectExpr) -> Seq<char> {
    match stripped(e) {
        InjectExpr::Closure(text) => "("@ + text@ + ") ()"@,
        _ => ":: core :: default :: Default :: default ()"@,
    }
}

/// The parameter name generated for one dependency field: its declared name
/// on named shapes, the snake-case conversion of its type's last path
/// segment on positional shapes.
pub open spec fn dep_name_of(f: Field, named: bool) -> Seq<char> {
    if named {
        f.name->0@
    } else {
        snake_of(f.ty.path_ident->0@)
    }
}

/// The types of the injected dependency fields, in declared order.  They
/// form the generated dependency aggregate.
pub open spec fn dep_types_of(fs: Seq<Field>) -> Seq<Seq<char>>
    decreases fs.len(),
{
    if fs.len() == 0 {
        Seq::empty()
    } else if fs.last().inject is None {
        dep_types_of(fs.drop_last()).push(fs.last().ty.text@)
    } else {
        dep_types_of(fs.drop_last())
    }
}

/// The generated parameter names of the dependency fields, in declared
/// order.
pub open spec fn dep_names_of(fs: Seq<Field>, named: bool) -> Seq<Seq<char>>
    decreases fs.len(),
{
    if fs.len() == 0 {
        Seq::empty()
    } else if fs.last().inject is None {
        dep_names_of(fs.drop_last(), named).push(dep_name_of(fs.last(), named))
    } else {
        dep_names_of(fs.drop_last(), named)
    }
}

/// The `name : expression` initializers of the locally computed fields of a
/// named shape, in declared order.
pub open spec fn factory_tokens_of(fs: Seq<Field>) -> Seq<Seq<char>>
    decreases fs.len(),
{
    if fs.len() == 0 {
        Seq::empty()
    } else if fs.last().inject is Some {
        factory_tokens_of(fs.drop_last()).push(
            fs.last().name->0@ + " : "@ + factory_expr_of(fs.last().inject->0),
        )
    } else {
        factory_tokens_of(fs.drop_last())
    }
}

/// The bare initializer expressions of the locally computed fields, in
/// declared order.
pub open spec fn factory_exprs_of(fs: Seq<Field>) -> Seq<Seq<char>>
    decreases fs.len(),
{
    if fs.len() == 0 {
        Seq::empty()
    } else if fs.last().inject is Some {
        factory_exprs_of(fs.drop_last()).push(factory_expr_of(fs.last().inject->0))
    } else {
        factory_exprs_of(fs.drop_last())
    }
}

/// The views of a list of generated strings.
pub open spec fn string_views(v: Seq<String>) -> Seq<Seq<char>>
    decreases v.len(),
{
    if v.len() == 0 {
        Seq::empty()
    } else {
        string_views(v.drop_last()).push(v.last()@)
    }
}

broadcast proof fn lemma_string_views_push(v: Seq<String>, s: String)
    ensures
        #[trigger] string_views(v.push(s)) == string_views(v).push(s@),
{
    assert(v.push(s).drop_last() =~= v);
    assert(v.push(s).last() == s);
}

proof fn lemma_string_views_len(v: Seq<String>)
    ensures
        string_views(v).len() == v.len(),
    decreases v.len(),
{
    if v.len() > 0 {
        lemma_string_views_len(v.drop_last());
    }
}

/// Strip grouping parentheses from a marker's expression.
fn strip_parens(e: &InjectExpr) -> (r: &InjectExpr)
    ensures
        *r == stripped(*e),
    decreases *e,
{
    match e {
        InjectExpr::Paren(inner) => strip_parens(inner),
        _ => e,
    }
}

/// Render the initializer for one locally computed field.
fn factory_expr(e: &InjectExpr) -> (r: String)
    ensures
        r@ == factory_expr_of(*e),
{
    let se = strip_parens(e);
    match se {
        InjectExpr::Closure(text) => {
            let mut s = "(".to_owned();
            s.append(text.as_str());
            s.append(") ()");
            proof {
                assert(s@ =~= "("@ + text@ + ") ()"@);
            }
            s
        },
        _ => ":: core :: default :: Default :: default ()".to_owned(),
    }
}


/// The generated field initializers, one per declared field, in declared
/// order: a locally computed field is filled from its own expression, a
/// dependency field from its generated parameter name.
pub open spec fn init_token_of(f: Field, named: bool) -> Seq<char> {
    if f.inject is Some {
        if named {
            f.name->0@ + " : "@ + factory_expr_of(f.inject->0)
        } else {
            factory_expr_of(f.inject->0)
        }
    } else {
        dep_name_of(f, named)
    }
}

/// The generated initializer list, in declared field order.
pub open spec fn init_tokens_of(fs: Seq<Field>, named: bool) -> Seq<Seq<char>>
    decreases fs.len(),
{
    if fs.len() == 0 {
        Seq::empty()
    } else {
        init_tokens_of(fs.drop_last(), named).push(init_token_of(fs.last(), named))
    }
}

/// Token texts joined by a separator.
pub open spec fn join_with(parts: Seq<Seq<char>>, sep: Seq<char>) -> Seq<char>
    decreases parts.len(),
{
    if parts.len() == 0 {
        Seq::empty()
    } else if parts.len() == 1 {
        parts[0]
    } else {
        join_with(parts.drop_last(), sep) + sep + parts.last()
    }
}

/// The generics list that follows `impl`, with its trailing space, or
/// nothing when the declaration has none.
pub open spec fn impl_generics_text(g: crate::derive_input::Generics) -> Seq<char> {
    if g.params@.len() == 0 {
        Seq::empty()
    } else {
        "< "@ + join_with(string_views(g.params@), " , "@) + " > "@
    }
}

/// The generics list that follows the type name, or nothing when the
/// declaration has none.
pub open spec fn ty_generics_text(g: crate::derive_input::Generics) -> Seq<char> {
    if g.params@.len() == 0 {
        Seq::empty()
    } else {
        " < "@ + join_with(string_views(g.params@), " , "@) + " >"@
    }
}

/// The generated `inject` parameter list: the dependency parameter names,
/// destructured from the aggregate, or a discarded parameter when the
/// aggregate is empty.
pub open spec fn inject_params_text(s: InjectableStruct) -> Seq<char> {
    if dep_names_of(s.fields(), s.kind is Named).len() == 0 {
        "_ : Self :: Deps"@
    } else {
        "("@ + join_with(dep_names_of(s.fields(), s.kind is Named), " , "@) + ") : Self :: Deps"@
    }
}

/// The generated construction expression: named shapes list `field` or
/// `field : expression` initializers, positional shapes list parameter
/// names or expressions, each in declared field order.
pub open spec fn construction_text(s: InjectableStruct) -> Seq<char> {
    match s.kind {
        StructKind::Named(_) => {
            if init_tokens_of(s.fields(), true).len() == 0 {
                "Self { }"@
            } else {
                "Self { "@ + join_with(init_tokens_of(s.fields(), true), " , "@) + " }"@
            }
        },
        StructKind::Unnamed(_) => "Self ("@ + join_with(init_tokens_of(s.fields(), false), " , "@)
            + ")"@,
        StructKind::Unit => "Self"@,
    }
}

/// The full generated implementation of the constructibility contract, in
/// token-stream rendering.
pub open spec fn generated_impl_text(s: InjectableStruct) -> Seq<char> {
    "impl "@ + impl_generics_text(s.generics) + "Injectable for "@ + s.ident@ + ty_generics_text(
        s.generics,
    ) + " { type Deps = ("@ + join_with(dep_types_of(s.fields()), " , "@) + ") ; fn inject ("@
        + inject_params_text(s) + ") -> Self { "@ + construction_text(s) + " } }"@
}

/// Join generated tokens with a separator.
fn join_strings(parts: &Vec<String>, sep: &str) -> (r: String)
    ensures
        r@ == join_with(string_views(parts@), sep@),
{
    let mut out = String::new();
    let mut i: usize = 0;
    while i < parts.len()
        invariant
            i <= parts.len(),
            out@ == join_with(string_views(parts@.take(i as int)), sep@),
        decreases parts.len() - i,
    {
        if i != 0 {
            out.append(sep);
        }
        out.append(parts[i].as_str());
        proof {
            let pre_views = string_views(parts@.take(i as int));
            assert(parts@.take(i + 1) =~= parts@.take(i as int).push(parts@[i as int]));
            lemma_string_views_push(parts@.take(i as int), parts@[i as int]);
            lemma_string_views_len(parts@.take(i as int));
            let post_views = string_views(parts@.take(i + 1));
            assert(post_views == pre_views.push(parts@[i as int]@));
            if i != 0 {
                assert(post_views.drop_last() =~= pre_views);
            }
            assert(out@ =~= join_with(post_views, sep@));
        }
        i += 1;
    }
    proof {
        assert(parts@.take(parts@.len() as int) =~= parts@);
    }
    out
}


/// Law (declaration round trip): for a named declaration with fields
/// `[injected x, injected y, locally computed l]`, the generated dependency
/// aggregate is exactly the two injected field types, in declared order,
/// and the generated construction fills each injected field from its own
/// parameter and the locally computed field from its own expression, each
/// at its declared position.
pub proof fn lemma_declaration_round_trip(s: InjectableStruct, x: Field, y: Field, l: Field)
    requires
        s.wf(),
        s.kind is Named,
        s.fields() == seq![x, y, l],
        x.inject is None,
        y.inject is None,
        l.inject is Some,
    ensures
        dep_types_of(s.fields()) == seq![x.ty.text@, y.ty.text@],
        init_tokens_of(s.fields(), true) == seq![
            x.name->0@,
            y.name->0@,
            l.name->0@ + " : "@ + factory_expr_of(l.inject->0),
        ],
{
    let fs = seq![x, y, l];
    assert(fs.drop_last() =~= seq![x, y]);
    assert(seq![x, y].drop_last() =~= seq![x]);
    assert(seq![x].drop_last() =~= Seq::<Field>::empty());
    assert(dep_types_of(Seq::<Field>::empty()) =~= Seq::<Seq<char>>::empty());
    assert(dep_types_of(seq![x]) =~= seq![x.ty.text@]);
    assert(dep_types_of(seq![x, y]) =~= seq![x.ty.text@, y.ty.text@]);
    assert(dep_types_of(fs) =~= seq![x.ty.text@, y.ty.text@]);
    assert(init_tokens_of(Seq::<Field>::empty(), true) =~= Seq::<Seq<char>>::empty());
    assert(init_tokens_of(seq![x], true) =~= seq![x.name->0@]);
    assert(init_tokens_of(seq![x, y], true) =~= seq![x.name->0@, y.name->0@]);
    assert(init_tokens_of(fs, true) =~= seq![
        x.name->0@,
        y.name->0@,
        l.name->0@ + " : "@ + factory_expr_of(l.inject->0),
    ]);
}

/// Relies on `String::push`: appends exactly the one given character.
#[verifier::external_body]
fn push_char(s: &mut String, c: char)
    ensures
        final(s)@ == old(s)@.push(c),
{
    s.push(c);
}

impl InjectableStruct {
    /// The declared fields, in declaration order.
    pub open spec fn fields(self) -> Seq<Field> {
        match self.kind {
            StructKind::Named(fs) => fs@,
            StructKind::Unnamed(fs) => fs@,
            StructKind::Unit => Seq::empty(),
        }
    }

    /// A declaration the layer accepts: a named shape names every field,
    /// and the type of a positional dependency field is a plain named path,
    /// or no parameter name could be derived for it.
    pub open spec fn wf(self) -> bool {
        &&& self.kind is Named ==> forall|i: int|
            0 <= i < self.fields().len() ==> (#[trigger] self.fields()[i]).name is Some
        &&& self.kind is Unnamed ==> forall|i: int|
            0 <= i < self.fields().len() ==> ((#[trigger] self.fields()[i]).inject is None
                ==> self.fields()[i].ty.path_ident is Some)
    }

    /// Reduce a declaration to its code-generation view.  Only product
    /// types are supported: the caller rejects enums and unions first.
    pub fn new(input: DeriveInput) -> (r: InjectableStruct)
        requires
            input.data is Struct,
        ensures
            r.ident == input.ident,
            r.generics == input.generics,
            r.kind == kind_of(input.data->Struct_0),
    {
        let DeriveInput { ident, generics, data } = input;
        let kind = match data {
            Data::Struct(fields) => match fields {
                Fields::Named(fs) => StructKind::Named(fs),
                Fields::Unnamed(fs) => StructKind::Unnamed(fs),
                Fields::Unit => StructKind::Unit,
            },
            _ => vstd::pervasive::unreached(),
        };
        InjectableStruct { ident, generics, kind }
    }

    /// Convert one type identifier to lower-case-with-underscores, to
    /// derive a stable parameter name for a positional dependency field.
    pub fn to_snake_case(&self, s: &str) -> (r: String)
        ensures
            r@ == snake_of(s@),
    {
        let mut result = String::new();
        let len = s.unicode_len();
        let mut i: usize = 0;
        while i < len
            invariant
                len == s@.len(),
                i <= len,
                result@ == snake_prefix(s@, i as int),
            decreases len - i,
        {
            let ch = s.get_char(i);
            let u = ch as u32;
            if 65 <= u && u <= 90 {
                if i != 0 {
                    push_char(&mut result, '_');
                }
                push_char(&mut result, ((u + 32) as u8) as char);
            } else {
                push_char(&mut result, ch);
            }
            proof {
                assert(snake_prefix(s@, i + 1) == snake_prefix(s@, i as int) + snake_fragment(
                    s@[i as int],
                    i == 0,
                ));
                assert(result@ =~= snake_prefix(s@, i + 1));
            }
            i += 1;
        }
        result
    }

    /// Classify the declared fields: a field carrying an injection marker
    /// is locally computed, every other field is an injected dependency.
    /// Returns, in declared order: the dependency field types, the
    /// generated dependency parameter names, the `name : expression`
    /// initializers of the locally computed fields of a named shape, and
    /// the bare initializer expressions of the locally computed fields.
    pub fn parse_dependencies(&self) -> (r: (Vec<String>, Vec<String>, Vec<String>, Vec<String>))
        requires
            self.wf(),
        ensures
            string_views(r.0@) == dep_types_of(self.fields()),
            string_views(r.1@) == dep_names_of(self.fields(), self.kind is Named),
            string_views(r.2@) == if self.kind is Named {
                factory_tokens_of(self.fields())
            } else {
                Seq::<Seq<char>>::empty()
            },
            string_views(r.3@) == factory_exprs_of(self.fields()),
    {
        let mut dep_types: Vec<String> = Vec::new();
        let mut dep_tokens: Vec<String> = Vec::new();
        let mut factory_tokens: Vec<String> = Vec::new();
        let mut factory_exprs: Vec<String> = Vec::new();

        let (fields, named): (&Vec<Field>, bool) = match &self.kind {
            StructKind::Named(fs) => (fs, true),
            StructKind::Unnamed(fs) => (fs, false),
            StructKind::Unit => {
                return (dep_types, dep_tokens, factory_tokens, factory_exprs);
            },
        };

        let mut i: usize = 0;
        while i < fields.len()
            invariant
                self.wf(),
                named <==> self.kind is Named,
                !(self.kind is Unit),
                fields@ == self.fields(),
                i <= fields.len(),
                string_views(dep_types@) == dep_types_of(fields@.take(i as int)),
                string_views(dep_tokens@) == dep_names_of(fields@.take(i as int), named),
                string_views(factory_tokens@) == if named {
                    factory_tokens_of(fields@.take(i as int))
                } else {
                    Seq::<Seq<char>>::empty()
                },
                string_views(factory_exprs@) == factory_exprs_of(fields@.take(i as int)),
            decreases fields.len() - i,
        {
            let ghost pre_types = dep_types@;
            let ghost pre_tokens = dep_tokens@;
            let ghost pre_ftoks = factory_tokens@;
            let ghost pre_fexprs = factory_exprs@;
            let ghost fld = fields@[i as int];
            let ghost pre = fields@.take(i as int);
            let ghost post = fields@.take(i + 1);
            proof {
                assert(post.drop_last() =~= pre);
                assert(post.last() == fld);
            }
            let f = &fields[i];
            match &f.inject {
                Some(expr) => {
                    let fe = factory_expr(expr);
                    if named {
                        let name = match &f.name {
                            Some(n) => n,
                            None => vstd::pervasive::unreached(),
                        };
                        let mut tok = name.clone();
                        tok.append(" : ");
                        tok.append(fe.as_str());
                        let ghost tok_g = tok;
                        factory_tokens.push(tok);
                        proof {
                            lemma_string_views_push(pre_ftoks, tok_g);
                            assert(string_views(factory_tokens@) == factory_tokens_of(post));
                        }
                    }
                    let ghost fe_g = fe;
                    factory_exprs.push(fe);
                    proof {
                        lemma_string_views_push(pre_fexprs, fe_g);
                        assert(string_views(factory_exprs@) == factory_exprs_of(post));
                        assert(string_views(dep_types@) == dep_types_of(post));
                        assert(string_views(dep_tokens@) == dep_names_of(post, named));
                    }
                },
                None => {
                    let ghost ty_g = fld.ty.text;
                    dep_types.push(f.ty.text.clone());
                    if named {
                        let name = match &f.name {
                            Some(n) => n,
                            None => vstd::pervasive::unreached(),
                        };
                        let ghost name_g = fld.name->0;
                        dep_tokens.push(name.clone());
                        proof {
                            lemma_string_views_push(pre_tokens, name_g);
                            assert(string_views(dep_tokens@) == dep_names_of(post, named));
                        }
                    } else {
                        let pid = match &f.ty.path_ident {
                            Some(p) => p,
                            None => vstd::pervasive::unreached(),
                        };
                        let snake = self.to_snake_case(pid.as_str());
                        let ghost snake_g = snake;
                        dep_tokens.push(snake);
                        proof {
                            lemma_string_views_push(pre_tokens, snake_g);
                            assert(string_views(dep_tokens@) == dep_names_of(post, named));
                        }
                    }
                    proof {
                        lemma_string_views_push(pre_types, ty_g);
                        assert(string_views(dep_types@) == dep_types_of(post));
                        assert(string_views(factory_exprs@) == factory_exprs_of(post));
                        assert(string_views(factory_tokens@) == if named {
                            factory_tokens_of(post)
                        } else {
                            Seq::<Seq<char>>::empty()
                        });
                    }
                },
            }
            i += 1;
        }
        proof {
            assert(fields@.take(fields@.len() as int) =~= fields@);
        }
        (dep_types, dep_tokens, factory_tokens, factory_exprs)
    }

    /// The generated field initializers, in declared order.
    pub fn init_tokens(&self) -> (r: Vec<String>)
        requires
            self.wf(),
        ensures
            string_views(r@) == init_tokens_of(self.fields(), self.kind is Named),
    {
        let mut inits: Vec<String> = Vec::new();
        let (fields, named): (&Vec<Field>, bool) = match &self.kind {
            StructKind::Named(fs) => (fs, true),
            StructKind::Unnamed(fs) => (fs, false),
            StructKind::Unit => {
                return inits;
            },
        };

        let mut i: usize = 0;
        while i < fields.len()
            invariant
                self.wf(),
                named <==> self.kind is Named,
                !(self.kind is Unit),
                fields@ == self.fields(),
                i <= fields.len(),
                string_views(inits@) == init_tokens_of(fields@.take(i as int), named),
            decreases fields.len() - i,
        {
            let ghost pre_inits = inits@;
            let ghost fld = fields@[i as int];
            let ghost pre = fields@.take(i as int);
            let ghost post = fields@.take(i + 1);
            proof {
                assert(post.drop_last() =~= pre);
                assert(post.last() == fld);
            }
            let f = &fields[i];
            let token: String = match &f.inject {
                Some(expr) => {
                    let fe = factory_expr(expr);
                    if named {
                        let name = match &f.name {
                            Some(n) => n,
                            None => vstd::pervasive::unreached(),
                        };
                        let mut tok = name.clone();
                        tok.append(" : ");
                        tok.append(fe.as_str());
                        tok
                    } else {
                        fe
                    }
                },
                None => {
                    if named {
                        let name = match &f.name {
                            Some(n) => n,
                            None => vstd::pervasive::unreached(),
                        };
                        name.clone()
                    } else {
                        let pid = match &f.ty.path_ident {
                            Some(p) => p,
                            None => vstd::pervasive::unreached(),
                        };
                        self.to_snake_case(pid.as_str())
                    }
                },
            };
            proof {
                assert(token@ == init_token_of(fld, named));
            }
            let ghost token_g = token;
            inits.push(token);
            proof {
                lemma_string_views_push(pre_inits, token_g);
                assert(string_views(inits@) == init_tokens_of(post, named));
            }
            i += 1;
        }
        proof {
            assert(fields@.take(fields@.len() as int) =~= fields@);
        }
        inits
    }

    /// Emit the full generated implementation for this declaration, in
    /// token-stream rendering: the dependency aggregate type, built from
    /// the injected field types in declared order, and a construction
    /// function that destructures the aggregate and fills each declared
    /// field position.
    pub fn into_token_stream(&self) -> (r: String)
        requires
            self.wf(),
        ensures
            r@ == generated_impl_text(*self),
    {
        let mut out = "impl ".to_owned();
        if self.generics.params.len() > 0 {
            out.append("< ");
            let g = join_strings(&self.generics.params, " , ");
            out.append(g.as_str());
            out.append(" > ");
        }
        proof {
            assert(out@ =~= "impl "@ + impl_generics_text(self.generics));
        }
        out.append("Injectable for ");
        out.append(self.ident.as_str());
        if self.generics.params.len() > 0 {
            out.append(" < ");
            let g = join_strings(&self.generics.params, " , ");
            out.append(g.as_str());
            out.append(" >");
        }
        let ghost head = "impl "@ + impl_generics_text(self.generics) + "Injectable for "@
            + self.ident@ + ty_generics_text(self.generics);
        proof {
            assert(out@ =~= head);
        }
        out.append(" { type Deps = (");
        let (dep_types, dep_tokens, _, _) = self.parse_dependencies();
        let tj = join_strings(&dep_types, " , ");
        out.append(tj.as_str());
        out.append(") ; fn inject (");
        if dep_tokens.len() == 0 {
            out.append("_ : Self :: Deps");
        } else {
            out.append("(");
            let pj = join_strings(&dep_tokens, " , ");
            out.append(pj.as_str());
            out.append(") : Self :: Deps");
        }
        let ghost mid = head + " { type Deps = ("@ + join_with(
            dep_types_of(self.fields()),
            " , "@,
        ) + ") ; fn inject ("@ + inject_params_text(*self);
        proof {
            lemma_string_views_len(dep_tokens@);
            assert(out@ =~= mid);
        }
        out.append(") -> Self { ");
        match &self.kind {
            StructKind::Named(_) => {
                let inits = self.init_tokens();
                proof {
                    lemma_string_views_len(inits@);
                }
                if inits.len() == 0 {
                    out.append("Self { }");
                } else {
                    out.append("Self { ");
                    let ij = join_strings(&inits, " , ");
                    out.append(ij.as_str());
                    out.append(" }");
                }
            },
            StructKind::Unnamed(_) => {
                let inits = self.init_tokens();
                out.append("Self (");
                let ij = join_strings(&inits, " , ");
                out.append(ij.as_str());
                out.append(")");
            },
            StructKind::Unit => {
                out.append("Self");
            },
        }
        proof {
            assert(out@ =~= mid + ") -> Self { "@ + construction_text(*self));
        }
        out.append(" } }");
        proof {
            assert(out@ =~= generated_impl_text(*self));
        }
        out
    }

}

} // verus!
