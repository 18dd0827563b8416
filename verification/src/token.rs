//! Tokens and trading pairs.

use vstd::prelude::*;
use vstd::string::StringExecFns;
use vstd::utf8::encode_utf8;
use vstd::utf8::encode_utf8_decode_utf8;
use vstd::std_specs::cmp::PartialEqSpecImpl;
use crate::error::ContractError;
use crate::order::bytes_less;
use crate::order::bytes_lt;
use crate::order::lemma_lt_asymmetric;
use crate::order::lemma_lt_connex;
use crate::order::lemma_lt_irreflexive;

verus! {

/// The longest identifier, in bytes, that can stand at the head of a composite
/// key of the store.
pub const MAX_ID_LEN: usize = 0xFFFF;

/// What makes a text usable as an identifier: it is not empty, and its UTF-8
/// form fits the length field of a key.
pub open spec fn valid_id(text: Seq<char>) -> bool {
    0 < text.len() && encode_utf8(text).len() <= MAX_ID_LEN
}

/// Whether `text` is usable as an identifier.
pub fn is_valid_id(text: &str) -> (r: bool)
    ensures
        r == valid_id(text@),
{
    let n: usize = text.as_bytes().len();
    proof {
        if text@.len() == 0 {
            assert(encode_utf8(text@).len() == 0) by {
                reveal_with_fuel(encode_utf8, 1);
            }
        } else {
            vstd::utf8::encode_utf8_first_scalar(text@);
        }
    }
    0 < n && n <= MAX_ID_LEN
}

/// One text comes before another when its UTF-8 form does.
pub open spec fn text_lt(a: Seq<char>, b: Seq<char>) -> bool {
    bytes_lt(encode_utf8(a), encode_utf8(b))
}

/// Two different texts are ordered one way and not the other.
pub proof fn lemma_text_order(a: Seq<char>, b: Seq<char>)
    ensures
        !text_lt(a, a),
        !(text_lt(a, b) && text_lt(b, a)),
        a != b ==> text_lt(a, b) || text_lt(b, a),
{
    lemma_lt_irreflexive(encode_utf8(a));
    lemma_lt_asymmetric(encode_utf8(a), encode_utf8(b));
    lemma_lt_connex(encode_utf8(a), encode_utf8(b));
    encode_utf8_decode_utf8(a);
    encode_utf8_decode_utf8(b);
}

/// A fungible asset, named apart from any chain's own representation of it.
#[derive(Debug)]
pub struct Token {
    id: String,
}

impl View for Token {
    type V = Seq<char>;

    closed spec fn view(&self) -> Seq<char> {
        self.id@
    }
}

impl Clone for Token {
    fn clone(&self) -> (r: Token)
        ensures
            r == *self,
    {
        proof {
            use_type_invariant(self);
        }
        Token { id: self.id.clone() }
    }
}

impl PartialEq for Token {
    fn eq(&self, other: &Token) -> (r: bool) {
        self.id == other.id
    }
}

impl Eq for Token {}

impl PartialEqSpecImpl for Token {
    open spec fn obeys_eq_spec() -> bool {
        true
    }

    open spec fn eq_spec(&self, other: &Token) -> bool {
        self@ == other@
    }
}

impl Token {
    #[verifier::type_invariant]
    spec fn inv(self) -> bool {
        valid_id(self.id@)
    }

    /// A token named `id`, if `id` is a valid identifier.
    pub fn create(id: String) -> (r: Result<Token, ContractError>)
        ensures
            valid_id(id@) ==> r is Ok && r->Ok_0@ == id@,
            !valid_id(id@) ==> r == Err::<Token, ContractError>(ContractError::InvalidTokenID),
    {
        if is_valid_id(id.as_str()) {
            Ok(Token { id })
        } else {
            Err(ContractError::InvalidTokenID)
        }
    }

    /// A token named `id`, which is known to be a valid identifier.
    pub(crate) fn from_valid(id: String) -> (r: Token)
        requires
            valid_id(id@),
        ensures
            r@ == id@,
    {
        Token { id }
    }

    /// The token's name.
    pub fn as_str(&self) -> (r: &str)
        ensures
            r@ == self@,
            valid_id(self@),
    {
        proof {
            use_type_invariant(self);
        }
        self.id.as_str()
    }

    /// Whether this token comes strictly before `other`.
    pub fn lt(&self, other: &Token) -> (r: bool)
        ensures
            r == text_lt(self@, other@),
    {
        bytes_less(self.id.as_str().as_bytes(), other.id.as_str().as_bytes())
    }
}

/// The key under which a pair of tokens is registered: the two names with the
/// earlier one first.
pub open spec fn canonical_key(a: Seq<char>, b: Seq<char>) -> (Seq<char>, Seq<char>) {
    if text_lt(b, a) {
        (b, a)
    } else {
        (a, b)
    }
}

/// Two tokens traded against each other. The order in which they are written
/// does not matter: see [`Pair::get_tupple`].
#[derive(Debug, PartialEq, Eq)]
pub struct Pair {
    pub token_1: Token,
    pub token_2: Token,
}

impl Clone for Pair {
    fn clone(&self) -> (r: Pair)
        ensures
            r == *self,
    {
        Pair { token_1: self.token_1.clone(), token_2: self.token_2.clone() }
    }
}

impl Pair {
    /// The pair's key in the registry.
    pub open spec fn key(self) -> (Seq<char>, Seq<char>) {
        canonical_key(self.token_1@, self.token_2@)
    }

    /// Whether the two tokens differ, as they must.
    pub open spec fn is_valid(self) -> bool {
        self.token_1@ != self.token_2@
    }

    /// The pair of `token_1` and `token_2` in canonical order, unless they are
    /// the same token.
    pub fn new(token_1: Token, token_2: Token) -> (r: Result<Pair, ContractError>)
        ensures
            token_1@ == token_2@ ==> r == Err::<Pair, ContractError>(ContractError::DuplicateTokens),
            token_1@ != token_2@ ==> r is Ok && r->Ok_0.is_valid()
                && (r->Ok_0.token_1@, r->Ok_0.token_2@) == canonical_key(token_1@, token_2@)
                && r->Ok_0.key() == canonical_key(token_1@, token_2@),
    {
        proof {
            lemma_text_order(token_1@, token_2@);
        }
        if token_1 == token_2 {
            return Err(ContractError::DuplicateTokens);
        }
        if token_2.lt(&token_1) {
            Ok(Pair { token_1: token_2, token_2: token_1 })
        } else {
            Ok(Pair { token_1, token_2 })
        }
    }

    /// Rejects a pair of one token with itself.
    pub fn validate(&self) -> (r: Result<(), ContractError>)
        ensures
            self.is_valid() ==> r == Ok::<(), ContractError>(()),
            !self.is_valid() ==> r == Err::<(), ContractError>(ContractError::DuplicateTokens),
    {
        if self.token_1 == self.token_2 {
            Err(ContractError::DuplicateTokens)
        } else {
            Ok(())
        }
    }

    /// The two tokens with the earlier one first.
    pub fn get_tupple(&self) -> (r: (Token, Token))
        ensures
            (r.0@, r.1@) == self.key(),
    {
        if self.token_2.lt(&self.token_1) {
            (self.token_2.clone(), self.token_1.clone())
        } else {
            (self.token_1.clone(), self.token_2.clone())
        }
    }
}

/// The key of two different tokens names the earlier one first.
pub proof fn lemma_canonical_key_ordered(a: Seq<char>, b: Seq<char>)
    requires
        a != b,
    ensures
        text_lt(canonical_key(a, b).0, canonical_key(a, b).1),
{
    lemma_text_order(a, b);
}

/// Writing a pair's two different tokens in the other order gives the same key.
pub proof fn lemma_canonical_key_symmetric(a: Seq<char>, b: Seq<char>)
    requires
        a != b,
    ensures
        canonical_key(a, b) == canonical_key(b, a),
{
    lemma_text_order(a, b);
}

/// How a chain holds a token: as a native coin or behind a token contract.
#[derive(Debug, PartialEq, Eq)]
pub enum TokenType {
    Native { denom: String },
    Smart { contract_address: String },
}

impl Clone for TokenType {
    fn clone(&self) -> (r: TokenType)
        ensures
            r == *self,
    {
        match self {
            TokenType::Native { denom } => TokenType::Native { denom: denom.clone() },
            TokenType::Smart { contract_address } => TokenType::Smart {
                contract_address: contract_address.clone(),
            },
        }
    }
}

impl TokenType {
    /// The coin's denomination, or the token contract's address.
    pub open spec fn denom(self) -> Seq<char> {
        match self {
            TokenType::Native { denom } => denom@,
            TokenType::Smart { contract_address } => contract_address@,
        }
    }

    /// The text that names the form and the denomination together.
    pub open spec fn key(self) -> Seq<char> {
        match self {
            TokenType::Native { denom } => "native:"@ + denom@,
            TokenType::Smart { contract_address } => "smart:"@ + contract_address@,
        }
    }

    /// The text that names the form and the denomination together.
    pub fn get_key(&self) -> (r: String)
        ensures
            r@ == self.key(),
    {
        match self {
            TokenType::Native { denom } => String::from_str("native:").concat(denom.as_str()),
            TokenType::Smart { contract_address } => String::from_str("smart:").concat(
                contract_address.as_str(),
            ),
        }
    }

    /// Whether the token is a native coin.
    pub fn is_native(&self) -> (r: bool)
        ensures
            r == (*self is Native),
    {
        match self {
            TokenType::Native { .. } => true,
            TokenType::Smart { .. } => false,
        }
    }

    /// Whether the token lives behind a token contract.
    pub fn is_smart(&self) -> (r: bool)
        ensures
            r == (*self is Smart),
    {
        !self.is_native()
    }

    /// The coin's denomination, or the token contract's address.
    pub fn get_denom(&self) -> (r: String)
        ensures
            r@ == self.denom(),
    {
        match self {
            TokenType::Native { denom } => denom.clone(),
            TokenType::Smart { contract_address } => contract_address.clone(),
        }
    }
}

/// A token together with the form in which the local chain holds it.
#[derive(Debug, PartialEq, Eq)]
pub struct TokenWithDenom {
    pub token: Token,
    pub token_type: TokenType,
}

impl Clone for TokenWithDenom {
    fn clone(&self) -> (r: TokenWithDenom)
        ensures
            r == *self,
    {
        TokenWithDenom { token: self.token.clone(), token_type: self.token_type.clone() }
    }
}

/// A pair whose tokens come with their local forms.
#[derive(Debug, PartialEq, Eq)]
pub struct PairWithDenom {
    pub token_1: TokenWithDenom,
    pub token_2: TokenWithDenom,
}

impl Clone for PairWithDenom {
    fn clone(&self) -> (r: PairWithDenom)
        ensures
            r == *self,
    {
        PairWithDenom { token_1: self.token_1.clone(), token_2: self.token_2.clone() }
    }
}

impl PairWithDenom {
    /// The pair of the two tokens, without their local forms.
    pub fn get_pair(&self) -> (r: Result<Pair, ContractError>)
        ensures
            self.token_1.token@ == self.token_2.token@ ==> r == Err::<Pair, ContractError>(
                ContractError::DuplicateTokens,
            ),
            self.token_1.token@ != self.token_2.token@ ==> r is Ok && r->Ok_0.is_valid()
                && r->Ok_0.key() == canonical_key(self.token_1.token@, self.token_2.token@),
    {
        Pair::new(self.token_1.token.clone(), self.token_2.token.clone())
    }

    /// The two tokens with their local forms, first token first.
    pub fn get_vec_token_info(&self) -> (r: Vec<TokenWithDenom>)
        ensures
            r@ == seq![self.token_1, self.token_2],
    {
        let mut v: Vec<TokenWithDenom> = Vec::new();
        v.push(self.token_1.clone());
        v.push(self.token_2.clone());
        v
    }
}

} // verus!
