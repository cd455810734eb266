//! What is read of an `impl` block, as texts.
//!
//! Each type stands twice: of `String`s where it is computed with, and of sequences of characters
//! where it is spoken of.

use vstd::prelude::*;

verus! {

/// An attribute.
pub struct Attr<S> {
    /// All of it.
    pub text: S,
    /// Its path.
    pub path: S,
    /// Whether it stands inside of what it is an attribute of.
    pub is_inner: bool,
    /// What comes behind its path.
    pub meta: Meta<S>,
}

/// What comes behind the path of an attribute.
pub enum Meta<S> {
    /// Nothing.
    Path,
    /// An equals sign and a value.
    NameValue,
    /// This, in parentheses or other brackets.
    List(S),
}

/// A string literal.
pub struct LitText<S> {
    /// As it is written.
    pub token: S,
    /// The string that it stands for.
    pub value: S,
}

/// A parameter.
pub enum Arg<S> {
    /// `self`, of this type, and whether `mut` stands before it.
    Receiver {
        /// Its type.
        ty: S,
        /// Whether `mut` stands before it.
        is_mut: bool,
    },
    /// Another.
    Typed {
        /// Its pattern.
        pat: S,
        /// The name that its pattern binds all of it to, whatever stands before or behind the name.
        name: Option<S>,
        /// Its type.
        ty: S,
    },
}

/// A function of an `impl` block.
pub struct FnText<S, L> {
    /// Its attributes.
    pub attrs: L,
    /// Its visibility.
    pub vis: S,
    /// `default`, or nothing.
    pub defaultness: S,
    /// Its signature.
    pub sig: S,
    /// Its name.
    pub name: S,
    /// Whether it returns a future of what its signature says.
    pub is_async: bool,
    /// Its parameters.
    pub inputs: L,
    /// Its statements.
    pub stmts: L,
}

/// The trait of an `impl` block.
pub struct TraitText<S, L> {
    /// `!`, or nothing.
    pub polarity: S,
    /// Its path.
    pub path: S,
    /// The names that its path is made of.
    pub names: L,
}

/// An `impl` block.
pub struct ImplText<S, L> {
    /// Its attributes.
    pub attrs: L,
    /// `default`, or nothing.
    pub defaultness: S,
    /// `unsafe`, or nothing.
    pub unsafety: S,
    /// Its generic parameters, in angle brackets.
    pub generics: S,
    /// Its trait.
    pub trait_text: Option<TraitText<S, L>>,
    /// The type that it is for.
    pub self_ty: S,
    /// Its `where` clause.
    pub where_clause: S,
    /// Its items.
    pub items: L,
}

impl View for Meta<String> {
    type V = Meta<Seq<char>>;

    open spec fn view(&self) -> Meta<Seq<char>> {
        match *self {
            Meta::Path => Meta::Path,
            Meta::NameValue => Meta::NameValue,
            Meta::List(tokens) => Meta::List(tokens@),
        }
    }
}

impl View for Attr<String> {
    type V = Attr<Seq<char>>;

    open spec fn view(&self) -> Attr<Seq<char>> {
        Attr {
            text: self.text@,
            path: self.path@,
            is_inner: self.is_inner,
            meta: self.meta@,
        }
    }
}

impl View for LitText<String> {
    type V = LitText<Seq<char>>;

    open spec fn view(&self) -> LitText<Seq<char>> {
        LitText { token: self.token@, value: self.value@ }
    }
}

impl View for Arg<String> {
    type V = Arg<Seq<char>>;

    open spec fn view(&self) -> Arg<Seq<char>> {
        match *self {
            Arg::Receiver { ty, is_mut } => Arg::Receiver { ty: ty@, is_mut },
            Arg::Typed { pat, name, ty } => Arg::Typed {
                pat: pat@,
                name: option_text(name),
                ty: ty@,
            },
        }
    }
}

impl View for FnText<String, Vec<String>> {
    type V = FnText<Seq<char>, Seq<Seq<char>>>;

    open spec fn view(&self) -> FnText<Seq<char>, Seq<Seq<char>>> {
        FnText {
            attrs: texts(self.attrs@),
            vis: self.vis@,
            defaultness: self.defaultness@,
            sig: self.sig@,
            name: self.name@,
            is_async: self.is_async,
            inputs: texts(self.inputs@),
            stmts: texts(self.stmts@),
        }
    }
}

impl View for TraitText<String, Vec<String>> {
    type V = TraitText<Seq<char>, Seq<Seq<char>>>;

    open spec fn view(&self) -> TraitText<Seq<char>, Seq<Seq<char>>> {
        TraitText { polarity: self.polarity@, path: self.path@, names: texts(self.names@) }
    }
}

impl View for ImplText<String, Vec<String>> {
    type V = ImplText<Seq<char>, Seq<Seq<char>>>;

    open spec fn view(&self) -> ImplText<Seq<char>, Seq<Seq<char>>> {
        ImplText {
            attrs: texts(self.attrs@),
            defaultness: self.defaultness@,
            unsafety: self.unsafety@,
            generics: self.generics@,
            trait_text: trait_view(self.trait_text),
            self_ty: self.self_ty@,
            where_clause: self.where_clause@,
            items: texts(self.items@),
        }
    }
}

/// The trait `text`, spoken of.
pub open spec fn trait_view(text: Option<TraitText<String, Vec<String>>>) -> Option<
    TraitText<Seq<char>, Seq<Seq<char>>>,
> {
    match text {
        Some(text) => Some(text@),
        None => None,
    }
}

/// The text of `string`.
pub open spec fn option_text(string: Option<String>) -> Option<Seq<char>> {
    match string {
        Some(string) => Some(string@),
        None => None,
    }
}

/// The texts of `strings`.
pub open spec fn texts(strings: Seq<String>) -> Seq<Seq<char>> {
    strings.map_values(|string: String| string@)
}

/// The attributes `attrs`, spoken of.
pub open spec fn attrs_view(attrs: Seq<Attr<String>>) -> Seq<Attr<Seq<char>>> {
    attrs.map_values(|attr: Attr<String>| attr@)
}

/// The parameters `args`, spoken of.
pub open spec fn args_view(args: Seq<Arg<String>>) -> Seq<Arg<Seq<char>>> {
    args.map_values(|arg: Arg<String>| arg@)
}

} // verus!
