//! What `syn` and `proc_macro2` read in a text.
//!
//! Nothing here is proved. Each reading is given a name, of which is known only that it is always the
//! same for the same text, and that what it leaves is shorter by a token at least. A text that is read
//! from is made into tokens by `proc_macro2` itself, even where a compiler offers to, and what is read
//! is made into a text again.

use proc_macro2::{fallback, Delimiter, Group, Literal, TokenStream};
use quote::ToTokens;
use syn::parse::{ParseStream, Parser};
use syn::{parse_str, AttrStyle, Attribute, Expr, FnArg, ImplItem, ItemImpl, LitInt, LitStr, Pat, Path};

use vstd::prelude::*;

use super::syntax::{
    attrs_view, option_text, trait_view, Arg, Attr, FnText, ImplText, LitText, Meta, TraitText,
};

verus! {

/// How many token trees a text is made of, or why it is made of none.
pub uninterp spec fn lexed(text: Seq<char>) -> Result<nat, Seq<char>>;

/// How many token trees a text is made of.
pub open spec fn trees(text: Seq<char>) -> nat {
    match lexed(text) {
        Ok(count) => count,
        Err(_) => 0,
    }
}

/// The count `count`, spoken of.
pub open spec fn count_view(count: Result<usize, String>) -> Result<nat, Seq<char>> {
    match count {
        Ok(count) => Ok(count as nat),
        Err(message) => Err(message@),
    }
}

/// The reading `read`, spoken of: what was read and what is left, or what is wrong.
pub open spec fn read_view(read: Result<(String, String), String>) -> Result<
    (Seq<char>, Seq<char>),
    Seq<char>,
> {
    match read {
        Ok((text, rest)) => Ok((text@, rest@)),
        Err(message) => Err(message@),
    }
}

/// `TokenStream::from_str`, and `into_iter` of what it makes: how many token trees `text` is made of.
/// Text that is not made of tokens is refused, with a message.
#[verifier::external_body]
pub(super) fn count_trees(text: &str) -> (count: Result<usize, String>)
    ensures
        count_view(count) == lexed(text@),
{
    fallback::force();
    match text.parse::<TokenStream>() {
        Ok(tokens) => Ok(tokens.into_iter().count()),
        Err(error) => Err(error.to_string()),
    }
}

/// The path that a text begins with, and what is left.
pub uninterp spec fn leading_path(text: Seq<char>) -> Result<(Seq<char>, Seq<char>), Seq<char>>;

/// `Path::parse`: the path that `text` begins with, and what is left. A path has a token at least.
#[verifier::external_body]
pub(super) fn read_path(text: &str) -> (read: Result<(String, String), String>)
    ensures
        read_view(read) == leading_path(text@),
        read matches Ok((_, rest)) ==> trees(rest@) < trees(text@),
{
    fallback::force();
    let parser = |input: ParseStream| Ok((input.parse::<Path>()?, input.parse::<TokenStream>()?));
    match parser.parse_str(text) {
        Ok((path, rest)) => Ok((path.to_token_stream().to_string(), rest.to_string())),
        Err(error) => Err(error.to_string()),
    }
}

/// What is left of a text that begins with an equals sign.
pub uninterp spec fn after_eq(text: Seq<char>) -> Option<Seq<char>>;

/// `Option::<token::Eq>::parse`: what is left of `text` if it begins with an equals sign.
#[verifier::external_body]
pub(super) fn skip_eq(text: &str) -> (rest: Option<String>)
    ensures
        option_text(rest) == after_eq(text@),
        rest matches Some(rest) ==> trees(rest@) < trees(text@),
{
    fallback::force();
    let parser = |input: ParseStream| Ok((input.parse::<Option<syn::token::Eq>>()?, input.parse::<TokenStream>()?));
    match parser.parse_str(text) {
        Ok((Some(_), rest)) => Some(rest.to_string()),
        Ok((None, _)) => None,
        Err(_) => None,
    }
}

/// What is left of a text that begins with a comma.
pub uninterp spec fn after_comma(text: Seq<char>) -> Result<Seq<char>, Seq<char>>;

/// The rest `rest`, spoken of.
pub open spec fn rest_view(rest: Result<String, String>) -> Result<Seq<char>, Seq<char>> {
    match rest {
        Ok(rest) => Ok(rest@),
        Err(message) => Err(message@),
    }
}

/// `token::Comma::parse`: what is left of `text`, which begins with a comma.
#[verifier::external_body]
pub(super) fn skip_comma(text: &str) -> (rest: Result<String, String>)
    ensures
        rest_view(rest) == after_comma(text@),
        rest matches Ok(rest) ==> trees(rest@) < trees(text@),
{
    fallback::force();
    let parser = |input: ParseStream| Ok((input.parse::<syn::token::Comma>()?, input.parse::<TokenStream>()?));
    match parser.parse_str(text) {
        Ok((_, rest)) => Ok(rest.to_string()),
        Err(error) => Err(error.to_string()),
    }
}

/// What stands in the parentheses that a text begins with, and what is left.
pub uninterp spec fn leading_group(text: Seq<char>) -> Option<(Seq<char>, Seq<char>)>;

/// The reading `read`, spoken of.
pub open spec fn group_view(read: Option<(String, String)>) -> Option<(Seq<char>, Seq<char>)> {
    match read {
        Some((content, rest)) => Some((content@, rest@)),
        None => None,
    }
}

/// `Group::parse`: what stands in the parentheses that `text` begins with, and what is left. Nothing if
/// it begins with anything else.
#[verifier::external_body]
pub(super) fn read_group(text: &str) -> (read: Option<(String, String)>)
    ensures
        group_view(read) == leading_group(text@),
        read matches Some((_, rest)) ==> trees(rest@) < trees(text@),
{
    fallback::force();
    let parser = |input: ParseStream| Ok((input.parse::<Group>()?, input.parse::<TokenStream>()?));
    let (group, rest) = parser.parse_str(text).ok()?;
    match group.delimiter() {
        Delimiter::Parenthesis => Some((group.stream().to_string(), rest.to_string())),
        _ => None,
    }
}

/// The expression that a text begins with, and what is left.
pub uninterp spec fn leading_expr(text: Seq<char>) -> Result<(Seq<char>, Seq<char>), Seq<char>>;

/// `Expr::parse`: the expression that `text` begins with, and what is left.
#[verifier::external_body]
pub(super) fn read_expr(text: &str) -> (read: Result<(String, String), String>)
    ensures
        read_view(read) == leading_expr(text@),
{
    fallback::force();
    let parser = |input: ParseStream| Ok((input.parse::<Expr>()?, input.parse::<TokenStream>()?));
    match parser.parse_str(text) {
        Ok((expr, rest)) => Ok((expr.to_token_stream().to_string(), rest.to_string())),
        Err(error) => Err(error.to_string()),
    }
}

/// The integer that a text begins with, and what is left.
pub uninterp spec fn leading_int(text: Seq<char>) -> Result<(Seq<char>, Seq<char>), Seq<char>>;

/// `LitInt::parse`: the integer that `text` begins with, and what is left.
#[verifier::external_body]
pub(super) fn read_int(text: &str) -> (read: Result<(String, String), String>)
    ensures
        read_view(read) == leading_int(text@),
        read matches Ok((_, rest)) ==> trees(rest@) < trees(text@),
{
    fallback::force();
    let parser = |input: ParseStream| Ok((input.parse::<LitInt>()?, input.parse::<TokenStream>()?));
    match parser.parse_str(text) {
        Ok((lit, rest)) => Ok((lit.to_token_stream().to_string(), rest.to_string())),
        Err(error) => Err(error.to_string()),
    }
}

/// The string literal that a text begins with, and what is left.
pub uninterp spec fn leading_str(text: Seq<char>) -> Result<
    (LitText<Seq<char>>, Seq<char>),
    Seq<char>,
>;

/// The reading `read`, spoken of.
pub open spec fn lit_view(read: Result<(LitText<String>, String), String>) -> Result<
    (LitText<Seq<char>>, Seq<char>),
    Seq<char>,
> {
    match read {
        Ok((lit, rest)) => Ok((lit@, rest@)),
        Err(message) => Err(message@),
    }
}

/// `LitStr::parse`, and `LitStr::value` of what it reads: the string literal that `text` begins with,
/// and what is left.
#[verifier::external_body]
pub(super) fn read_str(text: &str) -> (read: Result<(LitText<String>, String), String>)
    ensures
        lit_view(read) == leading_str(text@),
        read matches Ok((_, rest)) ==> trees(rest@) < trees(text@),
{
    fallback::force();
    let parser = |input: ParseStream| Ok((input.parse::<LitStr>()?, input.parse::<TokenStream>()?));
    match parser.parse_str(text) {
        Ok((lit, rest)) => {
            let token = lit.to_token_stream().to_string();
            Ok((LitText { token, value: lit.value() }, rest.to_string()))
        },
        Err(error) => Err(error.to_string()),
    }
}

/// The string literal of a text.
pub uninterp spec fn quoted(text: Seq<char>) -> Seq<char>;

/// `Literal::string`: the string literal whose value is `text`.
#[verifier::external_body]
pub(super) fn quote_text(text: &str) -> (literal: String)
    ensures
        literal@ == quoted(text@),
{
    fallback::force();
    Literal::string(text).to_string()
}

/// The `impl` block that a text is.
pub uninterp spec fn item_impl(text: Seq<char>) -> Result<
    ImplText<Seq<char>, Seq<Seq<char>>>,
    Seq<char>,
>;

/// The reading `read`, spoken of.
pub open spec fn impl_view(read: Result<ImplText<String, Vec<String>>, String>) -> Result<
    ImplText<Seq<char>, Seq<Seq<char>>>,
    Seq<char>,
> {
    match read {
        Ok(item) => Ok(item@),
        Err(message) => Err(message@),
    }
}

/// The `impl` block that is read, without its trait.
pub open spec fn without_trait(
    read: Result<ImplText<Seq<char>, Seq<Seq<char>>>, Seq<char>>,
) -> Result<ImplText<Seq<char>, Seq<Seq<char>>>, Seq<char>> {
    match read {
        Ok(item) => Ok(ImplText { trait_text: None, ..item }),
        Err(message) => Err(message),
    }
}

/// The trait of the `impl` block that is read.
pub open spec fn trait_of(read: Result<ImplText<Seq<char>, Seq<Seq<char>>>, Seq<char>>) -> Option<
    TraitText<Seq<char>, Seq<Seq<char>>>,
> {
    match read {
        Ok(item) => item.trait_text,
        Err(_) => None,
    }
}

/// `ItemImpl::parse`: the `impl` block that `text` is, part by part, without its trait.
#[verifier::external_body]
fn read_untraited(text: &str) -> (read: Result<ImplText<String, Vec<String>>, String>)
    ensures
        impl_view(read) == without_trait(item_impl(text@)),
{
    fallback::force();
    let text_of = |part: &dyn ToTokens| part.to_token_stream().to_string();
    let item = parse_str::<ItemImpl>(text).map_err(|error| error.to_string())?;
    Ok(ImplText {
        attrs: item.attrs.iter().map(|attr| text_of(attr)).collect(),
        defaultness: text_of(&item.defaultness),
        unsafety: text_of(&item.unsafety),
        generics: text_of(&item.generics),
        trait_text: None,
        self_ty: text_of(&item.self_ty),
        where_clause: text_of(&item.generics.where_clause),
        items: item.items.iter().map(|item| text_of(item)).collect(),
    })
}

/// `ItemImpl::parse`: the trait of the `impl` block that `text` is, part by part. The path of a trait
/// has a name at least.
#[verifier::external_body]
fn read_trait(text: &str) -> (read: Option<TraitText<String, Vec<String>>>)
    ensures
        trait_view(read) == trait_of(item_impl(text@)),
        read matches Some(text) ==> text.names@.len() > 0,
{
    fallback::force();
    let (polarity, path, _) = parse_str::<ItemImpl>(text).ok()?.trait_?;
    Some(TraitText {
        polarity: polarity.to_token_stream().to_string(),
        path: path.to_token_stream().to_string(),
        names: path.segments.iter().map(|segment| segment.ident.to_string()).collect(),
    })
}

/// Reads the `impl` block that `text` is.
pub(super) fn read_impl(text: &str) -> (read: Result<ImplText<String, Vec<String>>, String>)
    ensures
        impl_view(read) == item_impl(text@),
        read matches Ok(item) ==> (item.trait_text matches Some(text) ==> text.names@.len() > 0),
{
    match read_untraited(text) {
        Ok(item) => Ok(
            ImplText {
                attrs: item.attrs,
                defaultness: item.defaultness,
                unsafety: item.unsafety,
                generics: item.generics,
                trait_text: read_trait(text),
                self_ty: item.self_ty,
                where_clause: item.where_clause,
                items: item.items,
            },
        ),
        Err(message) => Err(message),
    }
}

/// The function that an item is, if it is one.
pub uninterp spec fn impl_item_fn(text: Seq<char>) -> Option<FnText<Seq<char>, Seq<Seq<char>>>>;

/// The reading `read`, spoken of.
pub open spec fn fn_view(read: Option<FnText<String, Vec<String>>>) -> Option<
    FnText<Seq<char>, Seq<Seq<char>>>,
> {
    match read {
        Some(item) => Some(item@),
        None => None,
    }
}

/// `ImplItem::parse`: the function that the item `text` is, part by part. Nothing if it is another
/// item.
#[verifier::external_body]
pub(super) fn read_fn(text: &str) -> (read: Option<FnText<String, Vec<String>>>)
    ensures
        fn_view(read) == impl_item_fn(text@),
{
    fallback::force();
    let text_of = |part: &dyn ToTokens| part.to_token_stream().to_string();
    match parse_str::<ImplItem>(text) {
        Ok(ImplItem::Fn(item)) => Some(FnText {
            attrs: item.attrs.iter().map(|attr| text_of(attr)).collect(),
            vis: text_of(&item.vis), defaultness: text_of(&item.defaultness),
            sig: text_of(&item.sig), name: text_of(&item.sig.ident),
            is_async: item.sig.asyncness.is_some(),
            inputs: item.sig.inputs.iter().map(|input| text_of(input)).collect(),
            stmts: item.block.stmts.iter().map(|stmt| text_of(stmt)).collect(),
        }),
        _ => None,
    }
}

/// The reading `read`, spoken of.
pub open spec fn attributes_view(read: Result<Vec<Attr<String>>, String>) -> Result<
    Seq<Attr<Seq<char>>>,
    Seq<char>,
> {
    match read {
        Ok(attrs) => Ok(attrs_view(attrs@)),
        Err(message) => Err(message@),
    }
}

/// The attributes that a text of outer attributes is.
pub uninterp spec fn outer_attributes(text: Seq<char>) -> Result<Seq<Attr<Seq<char>>>, Seq<char>>;

/// `Attribute::parse_outer`: the attributes that `text` is, part by part. A text of others is refused.
#[verifier::external_body]
fn read_outer(text: &str) -> (read: Result<Vec<Attr<String>>, String>)
    ensures
        attributes_view(read) == outer_attributes(text@),
{
    fallback::force();
    let attrs = Attribute::parse_outer.parse_str(text).map_err(|error| error.to_string())?;
    Ok(attrs.iter().map(|attr| Attr {
        text: attr.to_token_stream().to_string(),
        path: attr.path().to_token_stream().to_string(),
        is_inner: matches!(attr.style, AttrStyle::Inner(_)),
        meta: match &attr.meta {
            syn::Meta::Path(_) => Meta::Path,
            syn::Meta::NameValue(_) => Meta::NameValue,
            syn::Meta::List(list) => Meta::List(list.tokens.to_string()),
        },
    }).collect())
}

/// The attributes that a text of inner attributes is.
pub uninterp spec fn inner_attributes(text: Seq<char>) -> Result<Seq<Attr<Seq<char>>>, Seq<char>>;

/// `Attribute::parse_inner`: the attributes that `text` is, part by part. A text of others is refused.
#[verifier::external_body]
fn read_inner(text: &str) -> (read: Result<Vec<Attr<String>>, String>)
    ensures
        attributes_view(read) == inner_attributes(text@),
{
    fallback::force();
    let attrs = Attribute::parse_inner.parse_str(text).map_err(|error| error.to_string())?;
    Ok(attrs.iter().map(|attr| Attr {
        text: attr.to_token_stream().to_string(),
        path: attr.path().to_token_stream().to_string(),
        is_inner: matches!(attr.style, AttrStyle::Inner(_)),
        meta: match &attr.meta {
            syn::Meta::Path(_) => Meta::Path,
            syn::Meta::NameValue(_) => Meta::NameValue,
            syn::Meta::List(list) => Meta::List(list.tokens.to_string()),
        },
    }).collect())
}

/// The attributes that a text is, which all stand outside of what they are attributes of, or all inside.
pub open spec fn attributes(text: Seq<char>) -> Result<Seq<Attr<Seq<char>>>, Seq<char>> {
    match outer_attributes(text) {
        Ok(attrs) => Ok(attrs),
        Err(_) => inner_attributes(text),
    }
}

/// Reads the attributes that `text` is.
pub(super) fn read_attributes(text: &str) -> (read: Result<Vec<Attr<String>>, String>)
    ensures
        attributes_view(read) == attributes(text@),
{
    match read_outer(text) {
        Ok(attrs) => Ok(attrs),
        Err(_) => read_inner(text),
    }
}

/// The parameter that a text is.
pub uninterp spec fn fn_arg(text: Seq<char>) -> Result<Arg<Seq<char>>, Seq<char>>;

/// The reading `read`, spoken of.
pub open spec fn arg_view(read: Result<Arg<String>, String>) -> Result<Arg<Seq<char>>, Seq<char>> {
    match read {
        Ok(arg) => Ok(arg@),
        Err(message) => Err(message@),
    }
}

/// `FnArg::parse`: the parameter that `text` is, part by part. Where its pattern is a name, whatever stands
/// before or behind it there, that is its name.
#[verifier::external_body]
pub(super) fn read_arg(text: &str) -> (read: Result<Arg<String>, String>)
    ensures
        arg_view(read) == fn_arg(text@),
{
    fallback::force();
    let text_of = |part: &dyn ToTokens| part.to_token_stream().to_string();
    match parse_str::<FnArg>(text) {
        Ok(FnArg::Receiver(arg)) => Ok(Arg::Receiver { ty: text_of(&arg.ty), is_mut: arg.mutability.is_some() }),
        Ok(FnArg::Typed(arg)) => Ok(Arg::Typed {
            pat: text_of(&arg.pat),
            name: match &*arg.pat {
                Pat::Ident(pat) => Some(text_of(&pat.ident)),
                _ => None,
            },
            ty: text_of(&arg.ty),
        }),
        Err(error) => Err(error.to_string()),
    }
}

} // verus!
