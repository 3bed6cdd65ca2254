//! Tokens of host syntax as plain values, and the containers that a cursor
//! walks.

use vstd::prelude::*;
use vstd::slice::*;

verus! {

/// How a group of tokens is delimited.
#[derive(Debug, Clone, Copy, PartialEq, Eq)]
pub enum Delimiter {
    Parenthesis,
    Brace,
    Bracket,
    /// No delimiter is written: the group only keeps its tokens together.
    Invisible,
}

/// A delimited run of tokens, with the text that it prints as.
#[derive(Debug, PartialEq)]
pub struct Group {
    pub delimiter: Delimiter,
    pub stream: Vec<TokenTree>,
    pub text: String,
}

/// One token of host syntax, as the compiler hands it to the front end.
#[derive(Debug, PartialEq)]
pub enum TokenTree {
    Group(Group),
    Ident(String),
    Punct(char),
    Literal(String),
}

impl TokenTree {
    /// The text that the token prints as.
    pub open spec fn text(self) -> Seq<char> {
        match self {
            TokenTree::Group(group) => group.text@,
            TokenTree::Ident(name) => name@,
            TokenTree::Punct(c) => seq![c],
            TokenTree::Literal(text) => text@,
        }
    }

    /// The text that the token prints as.
    pub fn to_text(&self) -> (r: String)
        ensures
            r@ == self.text(),
    {
        match self {
            TokenTree::Group(group) => group.text.clone(),
            TokenTree::Ident(name) => name.clone(),
            TokenTree::Punct(c) => {
                let mut text = String::new();
                text.push(*c);
                assert(text@ =~= seq![*c]);
                text
            },
            TokenTree::Literal(text) => text.clone(),
        }
    }
}

/// The tokens that an iterator walks: a borrowed slice or a borrowed vector.
#[derive(Debug, Clone, Copy)]
pub enum TokenContainer<'a> {
    Slice(&'a [TokenTree]),
    Vec(&'a Vec<TokenTree>),
}

impl<'a> View for TokenContainer<'a> {
    type V = Seq<TokenTree>;

    open spec fn view(&self) -> Seq<TokenTree> {
        match self {
            TokenContainer::Slice(slice) => slice@,
            TokenContainer::Vec(vec) => vec@,
        }
    }
}

impl<'a> TokenContainer<'a> {
    /// The number of tokens.
    pub fn len(&self) -> (r: usize)
        ensures
            r == self@.len(),
    {
        match self {
            Self::Slice(slice) => slice.len(),
            Self::Vec(vec) => vec.len(),
        }
    }

    /// The token at `index`.
    pub fn index(&self, index: usize) -> (r: &'a TokenTree)
        requires
            index < self@.len(),
        ensures
            *r == self@[index as int],
    {
        match self {
            Self::Slice(slice) => &slice[index],
            Self::Vec(vec) => &vec[index],
        }
    }

    /// The tokens from `from` up to `to`.
    pub fn range(&self, from: usize, to: usize) -> (r: &'a [TokenTree])
        requires
            from <= to <= self@.len(),
        ensures
            r@ == self@.subrange(from as int, to as int),
    {
        match self {
            Self::Slice(slice) => slice_subrange(*slice, from, to),
            Self::Vec(vec) => slice_subrange(vec.as_slice(), from, to),
        }
    }
}

} // verus!
