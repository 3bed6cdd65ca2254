//! The cursor over tokens.

use vstd::prelude::*;
use vstd::string::StringExecFns;
use crate::lowering::token_container::{TokenContainer, TokenTree};

verus! {

/// A cursor over tokens that can be moved back: parsing commits to a reading
/// and rewinds where it does not work out.
#[derive(Debug)]
pub struct TokenIterator<'a> {
    pub tokens: TokenContainer<'a>,
    pub index: usize,
}

/// The token at `pos` prints as `text`.
pub open spec fn is_token(tokens: Seq<TokenTree>, pos: nat, text: Seq<char>) -> bool {
    pos < tokens.len() && tokens[pos as int].text() == text
}

/// The texts of the tokens from `from` up to `to`, joined without
/// separators.
pub open spec fn texts(tokens: Seq<TokenTree>, from: nat, to: nat) -> Seq<char>
    decreases to,
{
    if from >= to {
        Seq::empty()
    } else {
        texts(tokens, from, (to - 1) as nat) + tokens[to - 1].text()
    }
}

/// The joined texts of the next `count` tokens, where at least one more
/// token follows them.
pub open spec fn joined(tokens: Seq<TokenTree>, pos: nat, count: nat) -> Option<Seq<char>> {
    if pos + count >= tokens.len() {
        None
    } else {
        Some(texts(tokens, pos, pos + count))
    }
}

/// The position of the first token from `pos` on that prints as `text`.
pub open spec fn found_at(tokens: Seq<TokenTree>, pos: nat, text: Seq<char>, at: nat) -> bool {
    &&& pos <= at < tokens.len()
    &&& tokens[at as int].text() == text
    &&& forall|i: int| pos <= i < at ==> (#[trigger] tokens[i]).text() != text
}

impl<'a> From<&'a Vec<TokenTree>> for TokenIterator<'a> {
    fn from(value: &'a Vec<TokenTree>) -> (r: Self) {
        TokenIterator { tokens: TokenContainer::Vec(value), index: 0 }
    }
}

impl<'a> vstd::std_specs::convert::FromSpecImpl<&'a Vec<TokenTree>> for TokenIterator<'a> {
    open spec fn obeys_from_spec() -> bool {
        true
    }

    open spec fn from_spec(value: &'a Vec<TokenTree>) -> Self {
        TokenIterator { tokens: TokenContainer::Vec(value), index: 0 }
    }
}

impl<'a> From<&'a [TokenTree]> for TokenIterator<'a> {
    fn from(value: &'a [TokenTree]) -> (r: Self) {
        TokenIterator { tokens: TokenContainer::Slice(value), index: 0 }
    }
}

impl<'a> vstd::std_specs::convert::FromSpecImpl<&'a [TokenTree]> for TokenIterator<'a> {
    open spec fn obeys_from_spec() -> bool {
        true
    }

    open spec fn from_spec(value: &'a [TokenTree]) -> Self {
        TokenIterator { tokens: TokenContainer::Slice(value), index: 0 }
    }
}

impl<'a> TokenIterator<'a> {
    /// A cursor at the start of the tokens of a group.
    pub fn over(stream: &'a Vec<TokenTree>) -> (r: Self)
        ensures
            r.tokens@ == stream@,
            r.index == 0,
    {
        TokenIterator { tokens: TokenContainer::Vec(stream), index: 0 }
    }

    /// Moves the cursor to `index`.
    pub fn rewind_to(&mut self, index: usize)
        ensures
            final(self).tokens == old(self).tokens,
            final(self).index == index,
    {
        self.index = index;
    }

    /// The token under the cursor.
    pub fn peek(&self) -> (r: Option<&'a TokenTree>)
        ensures
            match r {
                Some(token) => self.index < self.tokens@.len() && *token
                    == self.tokens@[self.index as int],
                None => self.index >= self.tokens@.len(),
            },
    {
        if self.index >= self.tokens.len() {
            None
        } else {
            Some(self.tokens.index(self.index))
        }
    }

    /// The token under the cursor, which moves past it.
    pub fn next(&mut self) -> (r: Option<&'a TokenTree>)
        ensures
            final(self).tokens == old(self).tokens,
            match r {
                Some(token) => old(self).index < old(self).tokens@.len() && *token == old(
                    self,
                ).tokens@[old(self).index as int] && final(self).index == old(self).index + 1,
                None => old(self).index >= old(self).tokens@.len() && final(self).index == old(
                    self,
                ).index,
            },
    {
        if self.index >= self.tokens.len() {
            None
        } else {
            let next = Some(self.tokens.index(self.index));
            self.index += 1;
            next
        }
    }

    /// Moves past the token under the cursor where it prints as `token`.
    pub fn try_get_next_token(&mut self, token: &str) -> (r: Option<()>)
        ensures
            final(self).tokens == old(self).tokens,
            r is Some <==> is_token(old(self).tokens@, old(self).index as nat, token@),
            r is Some ==> final(self).index == old(self).index + 1,
            r is None ==> final(self).index == old(self).index,
    {
        if self.index < self.tokens.len() {
            let found = self.tokens.index(self.index).to_text();
            let wanted = String::from_str(token);
            if found == wanted {
                self.index += 1;
                return Some(());
            }
        }
        None
    }

    /// The next `count` tokens, or as many as are left, where any is left;
    /// the cursor moves past them.
    pub fn next_nth(&mut self, count: usize) -> (r: Option<&'a [TokenTree]>)
        ensures
            final(self).tokens == old(self).tokens,
            match r {
                Some(slice) => old(self).index < old(self).tokens@.len() && slice@ == old(
                    self,
                ).tokens@.subrange(old(self).index as int, final(self).index as int)
                    && final(self).index == if old(self).index + count < old(self).tokens@.len() {
                    old(self).index + count
                } else {
                    old(self).tokens@.len() as int
                },
                None => old(self).index >= old(self).tokens@.len() && final(self).index == old(
                    self,
                ).index,
            },
    {
        if self.index < self.tokens.len() {
            let end_index = if count < self.tokens.len() - self.index {
                self.index + count
            } else {
                self.tokens.len()
            };
            let slice = self.tokens.range(self.index, end_index);
            self.index = end_index;
            Some(slice)
        } else {
            None
        }
    }

    /// The joined texts of the next `count` tokens, where at least one more
    /// token follows them; the cursor moves past them.
    pub fn next_nth_string(&mut self, count: usize) -> (r: Option<String>)
        ensures
            final(self).tokens == old(self).tokens,
            match r {
                Some(text) => joined(old(self).tokens@, old(self).index as nat, count as nat)
                    == Some(text@) && final(self).index == old(self).index + count,
                None => joined(old(self).tokens@, old(self).index as nat, count as nat) is None
                    && final(self).index == old(self).index,
            },
    {
        if self.index >= self.tokens.len() || count >= self.tokens.len() - self.index {
            None
        } else {
            let start = self.index;
            let end = self.index + count;
            let mut result = String::new();
            let mut index = start;
            assert(result@ =~= texts(self.tokens@, start as nat, start as nat));
            while index < end
                invariant
                    start <= index <= end,
                    end < self.tokens@.len(),
                    result@ == texts(self.tokens@, start as nat, index as nat),
                decreases end - index,
            {
                let text = self.tokens.index(index).to_text();
                result.append(text.as_str());
                index += 1;
            }
            self.index = end;
            Some(result)
        }
    }

    /// The tokens up to the first one that prints as `token`; the cursor
    /// moves past that one.
    pub fn get_until_delimiter(&mut self, token: &str) -> (r: Option<&'a [TokenTree]>)
        requires
            old(self).index <= old(self).tokens@.len(),
        ensures
            final(self).tokens == old(self).tokens,
            match r {
                Some(slice) => found_at(
                    old(self).tokens@,
                    old(self).index as nat,
                    token@,
                    (final(self).index - 1) as nat,
                ) && slice@ == old(self).tokens@.subrange(
                    old(self).index as int,
                    final(self).index - 1,
                ),
                None => final(self).index == old(self).index && forall|i: int|
                    old(self).index <= i < old(self).tokens@.len() ==> (#[trigger] old(
                        self,
                    ).tokens@[i]).text() != token@,
            },
    {
        let wanted = String::from_str(token);
        let mut at = self.index;
        while at < self.tokens.len()
            invariant
                self.tokens == old(self).tokens,
                self.index == old(self).index,
                self.index <= at <= self.tokens@.len(),
                wanted@ == token@,
                forall|i: int| self.index <= i < at ==> (#[trigger] self.tokens@[i]).text() != token@,
            decreases self.tokens@.len() - at,
        {
            let found = self.tokens.index(at).to_text();
            if found == wanted {
                let slice = self.tokens.range(self.index, at);
                self.index = at + 1;
                return Some(slice);
            }
            at += 1;
        }
        None
    }
}

} // verus!
