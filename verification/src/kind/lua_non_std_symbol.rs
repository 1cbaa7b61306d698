use vstd::prelude::*;

verus! {

/// Non-standard Lua syntax that a lexer may be configured to accept.
#[derive(Debug, Clone, Copy, PartialEq, Eq, Hash, Structural)]
pub enum LuaNonStdSymbol {
    DoubleSlash,  // "//"
    SlashStar,  // "/**/"
    Backtick,  // "`"
    PlusAssign,  // "+="
    MinusAssign,  // "-="
    StarAssign,  // "*="
    SlashAssign,  // "/="
    PercentAssign,  // "%="
    CaretAssign,  // "^="
    DoubleSlashAssign,  // "//="
    PipeAssign,  // "|="
    AmpAssign,  // "&="
    ShiftLeftAssign,  // "<<="
    ShiftRightAssign,  // ">>="
    DoublePipe,  // "||"
    DoubleAmp,  // "&&"
    Exclamation,  // "!"
    NotEqual,  // "!="
    Continue,  // "continue"
}

/// The bit that stands for a symbol in a `LuaNonStdSymbolSet`.
pub open spec fn symbol_bit(symbol: LuaNonStdSymbol) -> u64 {
    match symbol {
        LuaNonStdSymbol::DoubleSlash => 1,
        LuaNonStdSymbol::SlashStar => 2,
        LuaNonStdSymbol::Backtick => 3,
        LuaNonStdSymbol::PlusAssign => 4,
        LuaNonStdSymbol::MinusAssign => 5,
        LuaNonStdSymbol::StarAssign => 6,
        LuaNonStdSymbol::SlashAssign => 7,
        LuaNonStdSymbol::PercentAssign => 8,
        LuaNonStdSymbol::CaretAssign => 9,
        LuaNonStdSymbol::DoubleSlashAssign => 10,
        LuaNonStdSymbol::PipeAssign => 11,
        LuaNonStdSymbol::AmpAssign => 12,
        LuaNonStdSymbol::ShiftLeftAssign => 13,
        LuaNonStdSymbol::ShiftRightAssign => 14,
        LuaNonStdSymbol::DoublePipe => 15,
        LuaNonStdSymbol::DoubleAmp => 16,
        LuaNonStdSymbol::Exclamation => 17,
        LuaNonStdSymbol::NotEqual => 18,
        LuaNonStdSymbol::Continue => 19,
    }
}

pub fn symbol_bit_exec(symbol: LuaNonStdSymbol) -> (b: u64)
    ensures
        b == symbol_bit(symbol),
        1 <= b <= 19,
{
    match symbol {
        LuaNonStdSymbol::DoubleSlash => 1,
        LuaNonStdSymbol::SlashStar => 2,
        LuaNonStdSymbol::Backtick => 3,
        LuaNonStdSymbol::PlusAssign => 4,
        LuaNonStdSymbol::MinusAssign => 5,
        LuaNonStdSymbol::StarAssign => 6,
        LuaNonStdSymbol::SlashAssign => 7,
        LuaNonStdSymbol::PercentAssign => 8,
        LuaNonStdSymbol::CaretAssign => 9,
        LuaNonStdSymbol::DoubleSlashAssign => 10,
        LuaNonStdSymbol::PipeAssign => 11,
        LuaNonStdSymbol::AmpAssign => 12,
        LuaNonStdSymbol::ShiftLeftAssign => 13,
        LuaNonStdSymbol::ShiftRightAssign => 14,
        LuaNonStdSymbol::DoublePipe => 15,
        LuaNonStdSymbol::DoubleAmp => 16,
        LuaNonStdSymbol::Exclamation => 17,
        LuaNonStdSymbol::NotEqual => 18,
        LuaNonStdSymbol::Continue => 19,
    }
}

/// Distinct symbols have distinct bits.
pub proof fn lemma_symbol_bit_injective(a: LuaNonStdSymbol, b: LuaNonStdSymbol)
    ensures
        symbol_bit(a) == symbol_bit(b) <==> a == b,
{
}

/// A set of non-standard symbols, stored as a bit set.
#[derive(Debug, Clone, Copy, PartialEq, Eq, Structural)]
pub struct LuaNonStdSymbolSet(u64);

pub open spec fn has_bit(bits: u64, i: u64) -> bool {
    bits & (1u64 << i) != 0
}

proof fn lemma_or_bit(bits: u64, i: u64, j: u64)
    requires
        i < 64,
        j < 64,
    ensures
        has_bit(bits | (1u64 << i), j) == (has_bit(bits, j) || i == j),
{
    assert((bits | (1u64 << i)) & (1u64 << j) != 0 <==> (bits & (1u64 << j) != 0 || i == j))
        by (bit_vector)
        requires
            i < 64,
            j < 64,
    ;
}

proof fn lemma_zero_bits(j: u64)
    requires
        j < 64,
    ensures
        !has_bit(0, j),
{
    assert(0u64 & (1u64 << j) == 0) by (bit_vector);
}

impl Default for LuaNonStdSymbolSet {
    /// The empty set, as [`LuaNonStdSymbolSet::new`] gives it.
    fn default() -> (r: Self)
        ensures
            r.wf(),
            r.contents() == Set::<LuaNonStdSymbol>::empty(),
    {
        Self::new()
    }
}

impl LuaNonStdSymbolSet {
    pub closed spec fn bits(self) -> u64 {
        self.0
    }

    /// Only the bits of symbols are set.
    pub closed spec fn wf(self) -> bool {
        self.bits() | 0xFFFFEu64 == 0xFFFFEu64
    }

    /// The symbols in the set.
    pub open spec fn contents(self) -> Set<LuaNonStdSymbol> {
        Set::new(|s: LuaNonStdSymbol| has_bit(self.bits(), symbol_bit(s)))
    }

    pub fn new() -> (r: Self)
        ensures
            r.wf(),
            r.contents() == Set::<LuaNonStdSymbol>::empty(),
    {
        let r = LuaNonStdSymbolSet(0);
        assert(0u64 | 0xFFFFEu64 == 0xFFFFEu64) by (bit_vector);
        assert forall|s: LuaNonStdSymbol| !r.contents().contains(s) by {
            lemma_zero_bits(symbol_bit(s));
        }
        assert(r.contents() =~= Set::<LuaNonStdSymbol>::empty());
        r
    }

    pub fn add(&mut self, symbol: LuaNonStdSymbol)
        ensures
            old(self).wf() ==> final(self).wf(),
            final(self).contents() == old(self).contents().insert(symbol),
    {
        let b = symbol_bit_exec(symbol);
        let ghost old_bits = self.0;
        self.0 = self.0 | (1u64 << b);
        assert(old_bits | 0xFFFFEu64 == 0xFFFFEu64 ==> (old_bits | (1u64 << b)) | 0xFFFFEu64 == 0xFFFFEu64)
            by (bit_vector)
            requires
                1 <= b <= 19,
        ;
        assert forall|s: LuaNonStdSymbol|
            #[trigger] final(self).contents().contains(s) == old(self).contents().insert(
                symbol,
            ).contains(s) by {
            lemma_or_bit(old_bits, b, symbol_bit(s));
            lemma_symbol_bit_injective(s, symbol);
        }
        assert(final(self).contents() =~= old(self).contents().insert(symbol));
    }

    pub fn extends(&mut self, other: Vec<LuaNonStdSymbol>)
        ensures
            old(self).wf() ==> final(self).wf(),
            final(self).contents() == old(self).contents() + other@.to_set(),
    {
        let mut i: usize = 0;
        while i < other.len()
            invariant
                0 <= i <= other.len(),
                old(self).wf() ==> self.wf(),
                self.contents() == old(self).contents() + other@.take(i as int).to_set(),
            decreases other.len() - i,
        {
            let ghost before = self.contents();
            self.add(other[i]);
            assert(other@.take(i + 1).to_set() =~= other@.take(i as int).to_set().insert(
                other@[i as int],
            )) by {
                assert(other@.take(i + 1) =~= other@.take(i as int).push(other@[i as int]));
                other@.take(i as int).lemma_push_to_set_commute(other@[i as int]);
            }
            assert(self.contents() =~= old(self).contents() + other@.take(i + 1).to_set());
            i += 1;
        }
        assert(other@.take(other@.len() as int) =~= other@);
    }

    pub fn support(&self, symbol: LuaNonStdSymbol) -> (r: bool)
        ensures
            r == self.contents().contains(symbol),
    {
        self.0 & (1u64 << symbol_bit_exec(symbol)) != 0
    }
}

proof fn lemma_contents_bit(a: LuaNonStdSymbolSet, s: LuaNonStdSymbol)
    ensures
        a.contents().contains(s) == has_bit(a.bits(), symbol_bit(s)),
{
}

proof fn lemma_same_bits(x: u64, y: u64)
    requires
        x | 0xFFFFEu64 == 0xFFFFEu64,
        y | 0xFFFFEu64 == 0xFFFFEu64,
        has_bit(x, 1) == has_bit(y, 1),
        has_bit(x, 2) == has_bit(y, 2),
        has_bit(x, 3) == has_bit(y, 3),
        has_bit(x, 4) == has_bit(y, 4),
        has_bit(x, 5) == has_bit(y, 5),
        has_bit(x, 6) == has_bit(y, 6),
        has_bit(x, 7) == has_bit(y, 7),
        has_bit(x, 8) == has_bit(y, 8),
        has_bit(x, 9) == has_bit(y, 9),
        has_bit(x, 10) == has_bit(y, 10),
        has_bit(x, 11) == has_bit(y, 11),
        has_bit(x, 12) == has_bit(y, 12),
        has_bit(x, 13) == has_bit(y, 13),
        has_bit(x, 14) == has_bit(y, 14),
        has_bit(x, 15) == has_bit(y, 15),
        has_bit(x, 16) == has_bit(y, 16),
        has_bit(x, 17) == has_bit(y, 17),
        has_bit(x, 18) == has_bit(y, 18),
        has_bit(x, 19) == has_bit(y, 19),
    ensures
        x == y,
{
    assert(x == y) by (bit_vector)
        requires
            x | 0xFFFFEu64 == 0xFFFFEu64,
            y | 0xFFFFEu64 == 0xFFFFEu64,
            (x & (1u64 << 1u64) != 0) == (y & (1u64 << 1u64) != 0),
            (x & (1u64 << 2u64) != 0) == (y & (1u64 << 2u64) != 0),
            (x & (1u64 << 3u64) != 0) == (y & (1u64 << 3u64) != 0),
            (x & (1u64 << 4u64) != 0) == (y & (1u64 << 4u64) != 0),
            (x & (1u64 << 5u64) != 0) == (y & (1u64 << 5u64) != 0),
            (x & (1u64 << 6u64) != 0) == (y & (1u64 << 6u64) != 0),
            (x & (1u64 << 7u64) != 0) == (y & (1u64 << 7u64) != 0),
            (x & (1u64 << 8u64) != 0) == (y & (1u64 << 8u64) != 0),
            (x & (1u64 << 9u64) != 0) == (y & (1u64 << 9u64) != 0),
            (x & (1u64 << 10u64) != 0) == (y & (1u64 << 10u64) != 0),
            (x & (1u64 << 11u64) != 0) == (y & (1u64 << 11u64) != 0),
            (x & (1u64 << 12u64) != 0) == (y & (1u64 << 12u64) != 0),
            (x & (1u64 << 13u64) != 0) == (y & (1u64 << 13u64) != 0),
            (x & (1u64 << 14u64) != 0) == (y & (1u64 << 14u64) != 0),
            (x & (1u64 << 15u64) != 0) == (y & (1u64 << 15u64) != 0),
            (x & (1u64 << 16u64) != 0) == (y & (1u64 << 16u64) != 0),
            (x & (1u64 << 17u64) != 0) == (y & (1u64 << 17u64) != 0),
            (x & (1u64 << 18u64) != 0) == (y & (1u64 << 18u64) != 0),
            (x & (1u64 << 19u64) != 0) == (y & (1u64 << 19u64) != 0),
    ;
}

/// Two sets with the same symbols are the same set.
pub proof fn lemma_same_contents_same_set(a: LuaNonStdSymbolSet, b: LuaNonStdSymbolSet)
    requires
        a.wf(),
        b.wf(),
        a.contents() == b.contents(),
    ensures
        a == b,
{
    let x = a.bits();
    let y = b.bits();
    assert(has_bit(x, 1) == has_bit(y, 1)) by {
        lemma_contents_bit(a, LuaNonStdSymbol::DoubleSlash);
        lemma_contents_bit(b, LuaNonStdSymbol::DoubleSlash);
    }
    assert(has_bit(x, 2) == has_bit(y, 2)) by {
        lemma_contents_bit(a, LuaNonStdSymbol::SlashStar);
        lemma_contents_bit(b, LuaNonStdSymbol::SlashStar);
    }
    assert(has_bit(x, 3) == has_bit(y, 3)) by {
        lemma_contents_bit(a, LuaNonStdSymbol::Backtick);
        lemma_contents_bit(b, LuaNonStdSymbol::Backtick);
    }
    assert(has_bit(x, 4) == has_bit(y, 4)) by {
        lemma_contents_bit(a, LuaNonStdSymbol::PlusAssign);
        lemma_contents_bit(b, LuaNonStdSymbol::PlusAssign);
    }
    assert(has_bit(x, 5) == has_bit(y, 5)) by {
        lemma_contents_bit(a, LuaNonStdSymbol::MinusAssign);
        lemma_contents_bit(b, LuaNonStdSymbol::MinusAssign);
    }
    assert(has_bit(x, 6) == has_bit(y, 6)) by {
        lemma_contents_bit(a, LuaNonStdSymbol::StarAssign);
        lemma_contents_bit(b, LuaNonStdSymbol::StarAssign);
    }
    assert(has_bit(x, 7) == has_bit(y, 7)) by {
        lemma_contents_bit(a, LuaNonStdSymbol::SlashAssign);
        lemma_contents_bit(b, LuaNonStdSymbol::SlashAssign);
    }
    assert(has_bit(x, 8) == has_bit(y, 8)) by {
        lemma_contents_bit(a, LuaNonStdSymbol::PercentAssign);
        lemma_contents_bit(b, LuaNonStdSymbol::PercentAssign);
    }
    assert(has_bit(x, 9) == has_bit(y, 9)) by {
        lemma_contents_bit(a, LuaNonStdSymbol::CaretAssign);
        lemma_contents_bit(b, LuaNonStdSymbol::CaretAssign);
    }
    assert(has_bit(x, 10) == has_bit(y, 10)) by {
        lemma_contents_bit(a, LuaNonStdSymbol::DoubleSlashAssign);
        lemma_contents_bit(b, LuaNonStdSymbol::DoubleSlashAssign);
    }
    assert(has_bit(x, 11) == has_bit(y, 11)) by {
        lemma_contents_bit(a, LuaNonStdSymbol::PipeAssign);
        lemma_contents_bit(b, LuaNonStdSymbol::PipeAssign);
    }
    assert(has_bit(x, 12) == has_bit(y, 12)) by {
        lemma_contents_bit(a, LuaNonStdSymbol::AmpAssign);
        lemma_contents_bit(b, LuaNonStdSymbol::AmpAssign);
    }
    assert(has_bit(x, 13) == has_bit(y, 13)) by {
        lemma_contents_bit(a, LuaNonStdSymbol::ShiftLeftAssign);
        lemma_contents_bit(b, LuaNonStdSymbol::ShiftLeftAssign);
    }
    assert(has_bit(x, 14) == has_bit(y, 14)) by {
        lemma_contents_bit(a, LuaNonStdSymbol::ShiftRightAssign);
        lemma_contents_bit(b, LuaNonStdSymbol::ShiftRightAssign);
    }
    assert(has_bit(x, 15) == has_bit(y, 15)) by {
        lemma_contents_bit(a, LuaNonStdSymbol::DoublePipe);
        lemma_contents_bit(b, LuaNonStdSymbol::DoublePipe);
    }
    assert(has_bit(x, 16) == has_bit(y, 16)) by {
        lemma_contents_bit(a, LuaNonStdSymbol::DoubleAmp);
        lemma_contents_bit(b, LuaNonStdSymbol::DoubleAmp);
    }
    assert(has_bit(x, 17) == has_bit(y, 17)) by {
        lemma_contents_bit(a, LuaNonStdSymbol::Exclamation);
        lemma_contents_bit(b, LuaNonStdSymbol::Exclamation);
    }
    assert(has_bit(x, 18) == has_bit(y, 18)) by {
        lemma_contents_bit(a, LuaNonStdSymbol::NotEqual);
        lemma_contents_bit(b, LuaNonStdSymbol::NotEqual);
    }
    assert(has_bit(x, 19) == has_bit(y, 19)) by {
        lemma_contents_bit(a, LuaNonStdSymbol::Continue);
        lemma_contents_bit(b, LuaNonStdSymbol::Continue);
    }
    lemma_same_bits(x, y);
}

/// After adding `added`, a set supports `query` exactly when it supported
/// it before or `query` is `added`; other symbols are unaffected.
pub proof fn lemma_add_then_support(
    before: LuaNonStdSymbolSet,
    after: LuaNonStdSymbolSet,
    added: LuaNonStdSymbol,
    query: LuaNonStdSymbol,
)
    requires
        after.contents() == before.contents().insert(added),
    ensures
        after.contents().contains(query) == (before.contents().contains(query) || query == added),
{
}

} // verus!
