use vstd::prelude::*;
use vstd::arithmetic::div_mod::lemma_fundamental_div_mod;

verus! {

/// Number of distinct sequence tokens: the token field of the wire header
/// is ten bits wide.
pub const TOKEN_SPACE: usize = 1024;

/// Tokens tracked per bitmap word.
pub const TOKENS_PER_WORD: usize = 32;

/// Words in the token bitmap: `TOKEN_SPACE / TOKENS_PER_WORD`.
pub const TOKEN_TABLE_WORDS: usize = 32;

/// Builds the all-clear bitmap of a fresh token table.
pub fn token_table_init() -> (r: Vec<u32>)
    ensures
        r@.len() == TOKEN_TABLE_WORDS,
        forall|i: int| 0 <= i < TOKEN_TABLE_WORDS ==> r@[i] == 0u32,
{
    let mut v: Vec<u32> = Vec::new();
    let mut i: usize = 0;
    while i < TOKEN_TABLE_WORDS
        invariant
            i <= TOKEN_TABLE_WORDS,
            v@.len() == i,
            forall|j: int| 0 <= j < i ==> v@[j] == 0u32,
        decreases TOKEN_TABLE_WORDS - i,
    {
        v.push(0);
        i += 1;
    }
    v
}

/// The fixed-capacity bitmap allocator behind the sequence tokens.
///
/// One bit per token; a set bit means the token is outstanding.  A rotating
/// hint makes allocation scan forward from just past the most recently
/// allocated token, and release moves the hint back to the freed token, so
/// recently freed tokens are preferred and token zero is not reused over
/// and over.
pub struct TokenTable {
    bitmap: Vec<u32>,
    next_hint: usize,
}

/// The token the scan probes at distance `k` from the hint `h`, wrapping at
/// the end of the token space.
pub open spec fn wrap_index(h: int, k: int) -> int {
    if h + k < 1024 {
        h + k
    } else {
        h + k - 1024
    }
}

impl TokenTable {
    /// The bitmap always holds one word per 32 tokens and the hint stays
    /// inside the token space.
    pub closed spec fn wf(&self) -> bool {
        &&& self.bitmap@.len() == TOKEN_TABLE_WORDS
        &&& self.next_hint < TOKEN_SPACE
    }

    /// Whether token `t` is currently outstanding: its bit in the bitmap is
    /// set.
    pub closed spec fn token_allocated(&self, t: int) -> bool {
        &&& 0 <= t < 1024
        &&& (self.bitmap@[t / 32] >> ((t % 32) as u32)) & 1u32 == 1u32
    }

    /// Whether the whole token space is outstanding.
    pub open spec fn all_allocated(&self) -> bool {
        forall|t: int| 0 <= t < 1024 ==> self.token_allocated(t)
    }

    /// The position the next allocation scan starts from.
    pub closed spec fn hint(&self) -> int {
        self.next_hint as int
    }

    /// A fresh table: no token outstanding, scan starting at zero.
    pub fn new() -> (r: TokenTable)
        ensures
            r.wf(),
            forall|t: int| !r.token_allocated(t),
            r.hint() == 0,
    {
        let r = TokenTable { bitmap: token_table_init(), next_hint: 0 };
        proof {
            assert forall|t: int| !r.token_allocated(t) by {
                if 0 <= t < 1024 {
                    lemma_div_in_range(t);
                    let b = (t % 32) as u32;
                    assert((0u32 >> b) & 1u32 == 0u32) by (bit_vector);
                }
            }
        }
        r
    }

    /// Hands out a token that is not outstanding, scanning forward from the
    /// rotating hint, or reports that the whole space is outstanding.
    ///
    /// On success the returned token was free, is now outstanding, every
    /// other token keeps its state, and the hint moves just past the new
    /// token.  `None` comes back exactly when every token in the space is
    /// outstanding, and then nothing changes.
    pub fn allocate(&mut self) -> (r: Option<u16>)
        requires
            old(self).wf(),
        ensures
            final(self).wf(),
            match r {
                Some(t) => {
                    &&& t < 1024
                    &&& !old(self).token_allocated(t as int)
                    &&& forall|u: int|
                        #![auto]
                        final(self).token_allocated(u) <==> (old(self).token_allocated(u) || u
                            == t as int)
                    &&& final(self).hint() == wrap_index(t as int, 1)
                },
                None => {
                    &&& old(self).all_allocated()
                    &&& forall|u: int|
                        #![auto]
                        final(self).token_allocated(u) <==> old(self).token_allocated(u)
                    &&& final(self).hint() == old(self).hint()
                },
            },
    {
        let hint = self.next_hint;
        let mut offset: usize = 0;
        while offset < TOKEN_SPACE
            invariant
                self.wf(),
                self.bitmap@ == old(self).bitmap@,
                self.next_hint == old(self).next_hint,
                hint == self.next_hint,
                offset <= TOKEN_SPACE,
                forall|k: int|
                    0 <= k < offset ==> #[trigger] self.token_allocated(
                        wrap_index(hint as int, k),
                    ),
            decreases TOKEN_SPACE - offset,
        {
            let token = if hint + offset < TOKEN_SPACE {
                hint + offset
            } else {
                hint + offset - TOKEN_SPACE
            };
            proof {
                lemma_div_in_range(token as int);
            }
            let word_idx = token / TOKENS_PER_WORD;
            let bit_idx = token % TOKENS_PER_WORD;
            let mask: u32 = 1u32 << (bit_idx as u32);
            let word = self.bitmap[word_idx];
            if word & mask == 0 {
                proof {
                    assert((word >> (bit_idx as u32)) & 1u32 != 1u32) by (bit_vector)
                        requires
                            word & (1u32 << (bit_idx as u32)) == 0u32,
                            bit_idx < 32usize,
                    ;
                }
                self.bitmap.set(word_idx, word | mask);
                self.next_hint = if token + 1 < TOKEN_SPACE {
                    token + 1
                } else {
                    0
                };
                proof {
                    lemma_bit_set(word, bit_idx as u32);
                    assert forall|u: int|
                        #![auto]
                        self.token_allocated(u) <==> (old(self).token_allocated(u) || u
                            == token as int) by {
                        if 0 <= u < 1024 {
                            lemma_div_in_range(u);
                            if u != token as int && u / 32 == token as int / 32 {
                                lemma_token_split(u, token as int);
                            }
                        }
                    }
                }
                return Some(token as u16);
            }
            proof {
                assert((word >> (bit_idx as u32)) & 1u32 == 1u32) by (bit_vector)
                    requires
                        word & (1u32 << (bit_idx as u32)) != 0u32,
                        bit_idx < 32usize,
                ;
                assert(wrap_index(hint as int, offset as int) == token as int);
                assert(self.token_allocated(wrap_index(hint as int, offset as int)));
            }
            offset += 1;
        }
        proof {
            assert forall|t: int| 0 <= t < 1024 implies self.token_allocated(t) by {
                let h = hint as int;
                let k = if t >= h {
                    t - h
                } else {
                    t + 1024 - h
                };
                assert(0 <= k < 1024);
                assert(wrap_index(h, k) == t);
                assert(self.token_allocated(wrap_index(h, k)));
            }
            assert forall|u: int|
                #![auto]
                self.token_allocated(u) <==> old(self).token_allocated(u) by {
                if 0 <= u < 1024 {
                    lemma_div_in_range(u);
                }
            }
        }
        None
    }

    /// Returns a token to the free space and moves the hint back to it, so
    /// it is the next one preferred.  A value outside the token space
    /// changes nothing.
    pub fn release(&mut self, token: u16)
        requires
            old(self).wf(),
        ensures
            final(self).wf(),
            token < 1024 ==> {
                &&& forall|u: int|
                    #![auto]
                    final(self).token_allocated(u) <==> (old(self).token_allocated(u) && u
                        != token as int)
                &&& final(self).hint() == token as int
            },
            token >= 1024 ==> {
                &&& forall|u: int|
                    #![auto]
                    final(self).token_allocated(u) <==> old(self).token_allocated(u)
                &&& final(self).hint() == old(self).hint()
            },
    {
        let token = token as usize;
        if token >= TOKEN_SPACE {
            return ;
        }
        proof {
            lemma_div_in_range(token as int);
        }
        let word_idx = token / TOKENS_PER_WORD;
        let bit_idx = token % TOKENS_PER_WORD;
        let mask: u32 = 1u32 << (bit_idx as u32);
        let word = self.bitmap[word_idx];
        self.bitmap.set(word_idx, word & !mask);
        self.next_hint = token;
        proof {
            lemma_bit_clear(word, bit_idx as u32);
            assert forall|u: int|
                #![auto]
                self.token_allocated(u) <==> (old(self).token_allocated(u) && u
                    != token as int) by {
                if 0 <= u < 1024 {
                    lemma_div_in_range(u);
                    if u != token as int && u / 32 == token as int / 32 {
                        lemma_token_split(u, token as int);
                    }
                }
            }
        }
    }
}

/// A token below 1024 sits in a word index below 32 and a bit index below
/// 32, and word and bit index together determine it.
proof fn lemma_div_in_range(t: int)
    by (nonlinear_arith)
    requires
        0 <= t < 1024,
    ensures
        0 <= t / 32 < 32,
        0 <= t % 32 < 32,
{
}

/// Two distinct tokens in the same bitmap word use distinct bits.
proof fn lemma_token_split(u: int, t: int)
    requires
        0 <= u < 1024,
        0 <= t < 1024,
        u != t,
        u / 32 == t / 32,
    ensures
        u % 32 != t % 32,
{
    lemma_fundamental_div_mod(u, 32);
    lemma_fundamental_div_mod(t, 32);
}

/// Setting one bit in a word sets exactly that bit.
proof fn lemma_bit_set(x: u32, b: u32)
    by (bit_vector)
    requires
        b < 32,
    ensures
        ((x | (1u32 << b)) >> b) & 1u32 == 1u32,
        forall|o: u32|
            o < 32 && o != b ==> #[trigger] (((x | (1u32 << b)) >> o) & 1u32) == (x >> o)
                & 1u32,
{
}

/// Clearing one bit in a word clears exactly that bit.
proof fn lemma_bit_clear(x: u32, b: u32)
    by (bit_vector)
    requires
        b < 32,
    ensures
        ((x & !(1u32 << b)) >> b) & 1u32 == 0u32,
        forall|o: u32|
            o < 32 && o != b ==> #[trigger] (((x & !(1u32 << b)) >> o) & 1u32) == (x >> o)
                & 1u32,
{
}

/// *Token uniqueness.*  A token just handed out by `alloc` differs from
/// every token that was already outstanding, and those stay outstanding:
/// two simultaneously outstanding tokens are never equal, however `alloc`
/// and `release` calls interleave.
pub proof fn lemma_outstanding_tokens_distinct(
    pre: TokenTable,
    post: TokenTable,
    t: u16,
    u: int,
)
    requires
        !pre.token_allocated(t as int),
        forall|v: int|
            #![auto]
            post.token_allocated(v) <==> (pre.token_allocated(v) || v == t as int),
        pre.token_allocated(u),
    ensures
        post.token_allocated(u),
        u != t as int,
{
}

} // verus!
