//! The checks behind the server's code-generating attributes: names of
//! generated tables, and the signature a gated reducer must have, over a
//! plain model of Rust types and signatures.
use vstd::prelude::*;
use vstd::string::*;
use crate::gated_features::{category_key, reducer_key};
use crate::text::{find_from, find_last, first_occurrence, last_occurrence, push_char, same_text, trim, trim_string};

verus! {

/// What `char::is_uppercase` answers: the Unicode `Uppercase` property.
pub uninterp spec fn is_uppercase(c: char) -> bool;

/// Calls `char::is_uppercase`; its answer depends on the character alone
/// and is named `is_uppercase`.
#[verifier::external_body]
pub(crate) fn char_is_uppercase(c: char) -> (r: bool)
    ensures
        r == is_uppercase(c),
{
    c.is_uppercase()
}

/// `c` with an ASCII capital letter made small; other characters unchanged.
pub open spec fn ascii_lowercase(c: char) -> char {
    if 'A' <= c && c <= 'Z' {
        ((c as u32) + 32) as char
    } else {
        c
    }
}

pub fn to_ascii_lowercase(c: char) -> (r: char)
    ensures
        r == ascii_lowercase(c),
{
    if 'A' <= c && c <= 'Z' {
        let code: u8 = (c as u8) + 32;
        code as char
    } else {
        c
    }
}

/// A CamelCase name in snake_case: an underscore before every capital but a
/// leading one, capitals made small.
pub open spec fn snake_case(s: Seq<char>) -> Seq<char>
    decreases s.len(),
{
    if s.len() == 0 {
        Seq::empty()
    } else {
        let prev = snake_case(s.drop_last());
        let c = s.last();
        if is_uppercase(c) {
            if prev.len() == 0 {
                prev.push(ascii_lowercase(c))
            } else {
                prev.push('_').push(ascii_lowercase(c))
            }
        } else {
            prev.push(c)
        }
    }
}

pub fn camel_to_snake(s: &str) -> (r: String)
    ensures
        r@ == snake_case(s@),
{
    let n = s.unicode_len();
    let mut out = String::new();
    let mut i: usize = 0;
    while i < n
        invariant
            n == s@.len(),
            i <= n,
            out@ == snake_case(s@.take(i as int)),
        decreases n - i,
    {
        let c = s.get_char(i);
        assert(s@.take(i + 1).drop_last() =~= s@.take(i as int));
        assert(s@.take(i + 1).last() == c);
        if char_is_uppercase(c) {
            if out.as_str().unicode_len() == 0 {
                push_char(&mut out, to_ascii_lowercase(c));
            } else {
                push_char(&mut out, '_');
                push_char(&mut out, to_ascii_lowercase(c));
            }
        } else {
            push_char(&mut out, c);
        }
        i = i + 1;
    }
    assert(s@.take(n as int) =~= s@);
    out
}

/// The primary-key field of a shared table, read from the text of the
/// table's struct: the text between the first `primary_key` and the next
/// `:`, after its last `pub`.
pub open spec fn primary_key_result(s: Seq<char>) -> Result<Seq<char>, Seq<char>> {
    match first_occurrence(s, "primary_key"@, 0) {
        None => Err("Missing `primary_key` attribute"@),
        Some(ind) => {
            let pk = trim(s.subrange(ind, first_occurrence(s, ":"@, ind)->0));
            match last_occurrence(pk, "pub"@) {
                None => Err("Primary key field must be public"@),
                Some(p) => Ok(trim(pk.subrange(p + 4, pk.len() as int))),
            }
        },
    }
}

/// The text cannot be read as above: no `:` follows `primary_key`, or the
/// last `pub` is not followed by a one-byte character.
pub open spec fn primary_key_faults(s: Seq<char>) -> bool {
    match first_occurrence(s, "primary_key"@, 0) {
        None => false,
        Some(ind) => match first_occurrence(s, ":"@, ind) {
            None => true,
            Some(colon) => {
                let pk = trim(s.subrange(ind, colon));
                match last_occurrence(pk, "pub"@) {
                    None => false,
                    Some(p) => p + 4 > pk.len() || pk[p + 3] as u32 >= 128,
                }
            },
        },
    }
}

pub fn primary_key_field(src: &str) -> (r: Result<String, String>)
    requires
        !primary_key_faults(src@),
    ensures
        match r {
            Ok(k) => primary_key_result(src@) == Ok::<Seq<char>, Seq<char>>(k@),
            Err(e) => primary_key_result(src@) == Err::<Seq<char>, Seq<char>>(e@),
        },
{
    let ind = match find_from(src, "primary_key", 0) {
        Some(i) => i,
        None => return Err(String::from_str("Missing `primary_key` attribute")),
    };
    let colon = match find_from(src, ":", ind) {
        Some(c) => c,
        None => {
            assert(false);
            return Err(String::new());
        },
    };
    assert(ind <= colon);
    let pk = trim_string(src.substring_char(ind, colon));
    let p = match find_last(pk.as_str(), "pub") {
        Some(p) => p,
        None => return Err(String::from_str("Primary key field must be public")),
    };
    let len = pk.as_str().unicode_len();
    let name = trim_string(pk.as_str().substring_char(p + 4, len));
    Ok(name)
}

/// A Rust type, as far as the signature checks read it.
#[derive(Debug)]
pub enum TypeShape {
    /// `&T` or `&mut T`.
    Reference(Box<TypeShape>),
    /// A path such as `std::result::Result<(), String>`.
    Path(Vec<PathSegment>),
    /// Any other type.
    Other,
}

/// One segment of a path, with its generic arguments.
#[derive(Debug)]
pub struct PathSegment {
    pub ident: String,
    pub arguments: PathArguments,
}

#[derive(Debug)]
pub enum PathArguments {
    NoArguments,
    AngleBracketed(Vec<GenericArgument>),
    Parenthesized,
}

#[derive(Debug)]
pub enum GenericArgument {
    Type(TypeShape),
    Other,
}

/// The return type of a function.
#[derive(Debug)]
pub enum ReturnShape {
    Default,
    Type(TypeShape),
}

/// A parameter of a function.
#[derive(Debug)]
pub enum FnArgShape {
    /// `self`, `&self` or `&mut self`.
    Receiver,
    /// `pattern: type`; `ident` is the pattern's name when it is a plain name.
    Typed { ident: Option<String>, ty: TypeShape },
}

/// The last segment of a path is named `name`.
pub open spec fn last_segment_is(segments: Seq<PathSegment>, name: Seq<char>) -> bool {
    segments.len() > 0 && segments.last().ident@ == name
}

/// The type is a `ReducerContext`, behind any number of references.
pub open spec fn is_reducer_context(ty: TypeShape) -> bool
    decreases ty,
{
    match ty {
        TypeShape::Reference(inner) => is_reducer_context(*inner),
        TypeShape::Path(segments) => last_segment_is(segments@, "ReducerContext"@),
        TypeShape::Other => false,
    }
}

/// The type is a `String`.
pub open spec fn is_string(ty: TypeShape) -> bool {
    match ty {
        TypeShape::Path(segments) => last_segment_is(segments@, "String"@),
        _ => false,
    }
}

/// The return type is a `Result` whose error type is a `String`.
pub open spec fn returns_result_string(output: ReturnShape) -> bool {
    match output {
        ReturnShape::Type(TypeShape::Path(segments)) => {
            &&& last_segment_is(segments@, "Result"@)
            &&& segments@.last().arguments matches PathArguments::AngleBracketed(args)
            &&& args@.len() == 2
            &&& args@[1] matches GenericArgument::Type(t)
            &&& is_string(t)
        },
        _ => false,
    }
}

fn last_segment_named(segments: &Vec<PathSegment>, name: &str) -> (r: bool)
    ensures
        r == last_segment_is(segments@, name@),
{
    let n = segments.len();
    if n == 0 {
        return false;
    }
    same_text(segments[n - 1].ident.as_str(), name)
}

pub fn type_is_reducer_context(ty: &TypeShape) -> (r: bool)
    ensures
        r == is_reducer_context(*ty),
    decreases ty,
{
    match ty {
        TypeShape::Reference(inner) => type_is_reducer_context(inner),
        TypeShape::Path(segments) => last_segment_named(segments, "ReducerContext"),
        TypeShape::Other => false,
    }
}

pub fn type_is_string(ty: &TypeShape) -> (r: bool)
    ensures
        r == is_string(*ty),
{
    match ty {
        TypeShape::Path(segments) => last_segment_named(segments, "String"),
        _ => false,
    }
}

pub fn return_type_is_result_string(output: &ReturnShape) -> (r: bool)
    ensures
        r == returns_result_string(*output),
{
    let segments = match output {
        ReturnShape::Type(TypeShape::Path(segments)) => segments,
        _ => return false,
    };
    if !last_segment_named(segments, "Result") {
        return false;
    }
    let n = segments.len();
    let args = match &segments[n - 1].arguments {
        PathArguments::AngleBracketed(args) => args,
        _ => return false,
    };
    if args.len() != 2 {
        return false;
    }
    match &args[1] {
        GenericArgument::Type(t) => type_is_string(t),
        _ => false,
    }
}

/// `i` is the first parameter named plainly and typed as a reducer context.
pub open spec fn is_context_param(inputs: Seq<FnArgShape>, i: int) -> bool {
    &&& 0 <= i < inputs.len()
    &&& is_named_context(inputs[i])
    &&& forall|j: int| 0 <= j < i ==> !is_named_context(#[trigger] inputs[j])
}

pub open spec fn is_named_context(a: FnArgShape) -> bool {
    a matches FnArgShape::Typed { ident: Some(_), ty } && is_reducer_context(ty)
}

/// The name of a function's reducer-context parameter: the first parameter
/// with a plain name whose type is a reducer context.
pub fn find_reducer_context_ident(inputs: &Vec<FnArgShape>) -> (r: Option<String>)
    ensures
        r is None <==> !exists|i: int| 0 <= i < inputs@.len() && #[trigger] is_named_context(inputs@[i]),
        r matches Some(name) ==> exists|i: int|
            is_context_param(inputs@, i) && (inputs@[i] matches FnArgShape::Typed { ident: Some(id), ty: _ } && id@
                == name@),
{
    let n = inputs.len();
    let mut i: usize = 0;
    while i < n
        invariant
            n == inputs@.len(),
            i <= n,
            forall|j: int| 0 <= j < i ==> !is_named_context(#[trigger] inputs@[j]),
        decreases n - i,
    {
        match &inputs[i] {
            FnArgShape::Typed { ident: Some(id), ty } => {
                if type_is_reducer_context(ty) {
                    assert(is_context_param(inputs@, i as int));
                    return Some(id.clone());
                }
            },
            _ => {},
        }
        i = i + 1;
    }
    None
}

/// The argument of a gating attribute: nothing, a string literal (the
/// category), or anything else.
#[derive(Debug)]
pub enum FeatureGateArgs {
    Empty,
    StringLiteral(String),
    Other,
}

/// The category named by a gating attribute's argument; anything but
/// nothing or one string literal is refused.
pub fn parse_feature_gate_args(args: FeatureGateArgs) -> (r: Result<Option<String>, String>)
    ensures
        args is Empty ==> r matches Ok(None),
        args matches FeatureGateArgs::StringLiteral(s) ==> (r matches Ok(Some(c)) && c@ == s@),
        args is Other ==> (r matches Err(e) && e@ == "Expected usage: #[feature_gate] or #[feature_gate(\"category\")]"@),
{
    match args {
        FeatureGateArgs::Empty => Ok(None),
        FeatureGateArgs::StringLiteral(s) => Ok(Some(s)),
        FeatureGateArgs::Other => Err(
            String::from_str("Expected usage: #[feature_gate] or #[feature_gate(\"category\")]"),
        ),
    }
}

/// What the gating attribute generates for a reducer: the name of its
/// context parameter and the keys it checks.
#[derive(Debug)]
pub struct FeatureGatePlan {
    pub ctx_ident: String,
    pub reducer_key: String,
    pub category_key: Option<String>,
}

/// Checks a reducer for the gating attribute and derives the keys that gate
/// it: `reducer:<name>`, and `category:<category>` when a category is given.
pub fn feature_gate_plan(
    args: FeatureGateArgs,
    output: &ReturnShape,
    inputs: &Vec<FnArgShape>,
    reducer_name: &str,
) -> (r: Result<FeatureGatePlan, String>)
    ensures
        args is Other ==> (r matches Err(e) && e@ == "Expected usage: #[feature_gate] or #[feature_gate(\"category\")]"@),
        !(args is Other) && !returns_result_string(*output) ==> (r matches Err(e) && e@
            == "`#[feature_gate]` can only be used on reducers returning `Result<_, String>`"@),
        !(args is Other) && returns_result_string(*output) && !(exists|i: int|
            0 <= i < inputs@.len() && #[trigger] is_named_context(inputs@[i])) ==> (r matches Err(e) && e@
            == "`#[feature_gate]` requires a named `ReducerContext` parameter"@),
        r matches Ok(plan) ==> {
            &&& !(args is Other)
            &&& returns_result_string(*output)
            &&& exists|i: int|
                is_context_param(inputs@, i) && (inputs@[i] matches FnArgShape::Typed {
                    ident: Some(id),
                    ty: _,
                } && id@ == plan.ctx_ident@)
            &&& plan.reducer_key@ == reducer_key(reducer_name@)
            &&& args is Empty ==> plan.category_key is None
            &&& args matches FeatureGateArgs::StringLiteral(c) ==> (plan.category_key matches Some(k) && k@
                == category_key(c@))
        },
{
    let category = match parse_feature_gate_args(args) {
        Ok(c) => c,
        Err(e) => return Err(e),
    };
    if !return_type_is_result_string(output) {
        return Err(String::from_str("`#[feature_gate]` can only be used on reducers returning `Result<_, String>`"));
    }
    let ctx_ident = match find_reducer_context_ident(inputs) {
        Some(id) => id,
        None => return Err(String::from_str("`#[feature_gate]` requires a named `ReducerContext` parameter")),
    };
    let reducer_key = String::from_str("reducer:").concat(reducer_name);
    let category_key = match category {
        Some(c) => Some(String::from_str("category:").concat(c.as_str())),
        None => None,
    };
    Ok(FeatureGatePlan { ctx_ident, reducer_key, category_key })
}

/// The name of the staging table of a static-data table.
pub fn staged_table_name(name: &str) -> (r: String)
    ensures
        r@ == "staged_"@ + name@,
{
    String::from_str("staged_").concat(name)
}

/// The names a shared table's generated code uses.
#[derive(Debug)]
pub struct SharedTableNames {
    /// The table accessor: the struct's name in snake case.
    pub table: String,
    /// The type of the table's update operations.
    pub op_type: String,
    /// The primary-key field.
    pub primary_key: String,
}

pub fn shared_table_names(struct_name: &str, src: &str) -> (r: Result<SharedTableNames, String>)
    requires
        !primary_key_faults(src@),
    ensures
        match r {
            Ok(n) => primary_key_result(src@) == Ok::<Seq<char>, Seq<char>>(n.primary_key@) && n.table@
                == snake_case(struct_name@) && n.op_type@ == struct_name@ + "Op"@,
            Err(e) => primary_key_result(src@) == Err::<Seq<char>, Seq<char>>(e@),
        },
{
    let primary_key = primary_key_field(src)?;
    let table = camel_to_snake(struct_name);
    let op_type = String::from_str(struct_name).concat("Op");
    Ok(SharedTableNames { table, op_type, primary_key })
}

/// The argument of the event-table attribute: an assignment whose sides are
/// paths (their segments), or anything else.
#[derive(Debug)]
pub enum EventTableArgs {
    Assign { left: Option<Vec<String>>, right: Option<Vec<String>> },
    Other,
}

/// The names an event table's generated code uses.
#[derive(Debug)]
pub struct EventTableNames {
    pub table_name: String,
    pub reducer_name: String,
}

/// The table an event-table attribute names: `name = <table>`.
pub open spec fn event_table_name(args: EventTableArgs) -> Option<Seq<char>> {
    match args {
        EventTableArgs::Assign { left: Some(l), right: Some(r) } => if l@.len() == 1 && l@[0]@ == "name"@
            && r@.len() == 1 {
            Some(r@[0]@)
        } else {
            None
        },
        _ => None,
    }
}

pub fn event_table_names(args: EventTableArgs) -> (r: Result<EventTableNames, String>)
    ensures
        event_table_name(args) is None ==> (r matches Err(e) && e@ == "Expected usage: #[event_table(name=table_name)]"@),
        event_table_name(args) matches Some(t) ==> (r matches Ok(n) && n.table_name@ == t && n.reducer_name@
            == t + "_reducer"@),
{
    let err = String::from_str("Expected usage: #[event_table(name=table_name)]");
    match args {
        EventTableArgs::Assign { left: Some(l), right: Some(r) } => {
            if l.len() == 1 && same_text(l[0].as_str(), "name") && r.len() == 1 {
                let table_name = r[0].clone();
                let reducer_name = table_name.clone().concat("_reducer");
                Ok(EventTableNames { table_name, reducer_name })
            } else {
                Err(err)
            }
        },
        _ => Err(err),
    }
}

} // verus!
