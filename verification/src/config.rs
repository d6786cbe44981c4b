//! Settings of the title screen: letter spacing, height and colours.

use vstd::prelude::*;

verus! {

/// A colour that the title can be drawn in.
#[derive(Debug, Clone, Copy, PartialEq, Eq, Structural)]
pub enum TitleColor {
    Red,
    Green,
    Yellow,
    Blue,
    Magenta,
    Cyan,
    White,
    Black,
    DarkGray,
    LightRed,
    LightGreen,
    LightYellow,
    LightBlue,
    LightMagenta,
    LightCyan,
    Gray,
    Custom(u8, u8, u8),
}

/// The spacing between one letter of the title and the next:
/// `letter_index` is the index of the first letter of the pair, and a
/// negative `adjustment` draws the two closer together.
#[derive(Debug, Clone, Copy, PartialEq, Eq, Structural)]
pub struct KerningPair {
    pub letter_index: usize,
    pub adjustment: i16,
}

/// The settings of the title.
#[derive(Debug, Clone)]
pub struct TitleConfig {
    pub kerning_adjustments: Vec<KerningPair>,
    pub title_height: usize,
    pub protection_margin: usize,
}

/// The sum of the adjustments of the pairs.
pub open spec fn kerning_sum(pairs: Seq<KerningPair>) -> int
    decreases pairs.len(),
{
    if pairs.len() == 0 {
        0
    } else {
        kerning_sum(pairs.drop_last()) + pairs.last().adjustment
    }
}

/// Whether the adjustments can be added up one after the other in 16 bits,
/// and the sum can be negated there.
pub open spec fn kerning_fits(pairs: Seq<KerningPair>) -> bool {
    &&& forall|count: int|
        0 <= count <= pairs.len() ==> i16::MIN <= #[trigger] kerning_sum(pairs.take(count)) <= i16::MAX
    &&& kerning_sum(pairs) > i16::MIN
}

/// The spacing of the twelve letter pairs of the title as it is delivered.
pub open spec fn default_kerning() -> Seq<KerningPair> {
    seq![
        KerningPair { letter_index: 0, adjustment: -8i16 },
        KerningPair { letter_index: 1, adjustment: -4i16 },
        KerningPair { letter_index: 2, adjustment: -2i16 },
        KerningPair { letter_index: 3, adjustment: -3i16 },
        KerningPair { letter_index: 4, adjustment: -6i16 },
        KerningPair { letter_index: 5, adjustment: -1i16 },
        KerningPair { letter_index: 6, adjustment: 0i16 },
        KerningPair { letter_index: 7, adjustment: -8i16 },
        KerningPair { letter_index: 8, adjustment: -1i16 },
        KerningPair { letter_index: 9, adjustment: -1i16 },
        KerningPair { letter_index: 10, adjustment: -1i16 },
        KerningPair { letter_index: 11, adjustment: -1i16 },
    ]
}

impl Default for TitleConfig {
    fn default() -> (config: TitleConfig)
        ensures
            config.kerning_adjustments@ == default_kerning(),
            config.title_height == 5,
            config.protection_margin == 3,
    {
        let kerning_adjustments = vec![
            KerningPair { letter_index: 0, adjustment: -8 },
            KerningPair { letter_index: 1, adjustment: -4 },
            KerningPair { letter_index: 2, adjustment: -2 },
            KerningPair { letter_index: 3, adjustment: -3 },
            KerningPair { letter_index: 4, adjustment: -6 },
            KerningPair { letter_index: 5, adjustment: -1 },
            KerningPair { letter_index: 6, adjustment: 0 },
            KerningPair { letter_index: 7, adjustment: -8 },
            KerningPair { letter_index: 8, adjustment: -1 },
            KerningPair { letter_index: 9, adjustment: -1 },
            KerningPair { letter_index: 10, adjustment: -1 },
            KerningPair { letter_index: 11, adjustment: -1 },
        ];
        assert(kerning_adjustments@ =~= default_kerning());
        TitleConfig { kerning_adjustments, title_height: 5, protection_margin: 3 }
    }
}

/// By how many columns the pairs shorten the title: the negated sum of the
/// adjustments where that sum is negative, and zero where it is not.
pub fn get_total_kerning_adjustment(kerning_pairs: &[KerningPair]) -> (total: usize)
    requires
        kerning_fits(kerning_pairs@),
    ensures
        total == if kerning_sum(kerning_pairs@) < 0 {
            -kerning_sum(kerning_pairs@)
        } else {
            0
        },
{
    let mut sum: i16 = 0;
    let mut i: usize = 0;
    assert(kerning_pairs@.take(0) =~= Seq::<KerningPair>::empty());
    while i < kerning_pairs.len()
        invariant
            i <= kerning_pairs@.len(),
            kerning_fits(kerning_pairs@),
            sum == kerning_sum(kerning_pairs@.take(i as int)),
        decreases kerning_pairs@.len() - i,
    {
        let ghost next = kerning_pairs@.take(i + 1);
        assert(next.drop_last() =~= kerning_pairs@.take(i as int));
        assert(next.last() == kerning_pairs@[i as int]);
        assert(i16::MIN <= kerning_sum(next) <= i16::MAX);
        sum = sum + kerning_pairs[i].adjustment;
        i += 1;
    }
    assert(kerning_pairs@.take(i as int) =~= kerning_pairs@);
    if sum < 0 {
        (-sum) as usize
    } else {
        0
    }
}

/// By how many columns the pairs shorten the title, where the adjustments
/// can be added up one after the other in 16 bits and the sum can be negated
/// there; `None` where they cannot.
pub fn checked_total_kerning_adjustment(kerning_pairs: &[KerningPair]) -> (total: Option<usize>)
    ensures
        total is Some <==> kerning_fits(kerning_pairs@),
        total matches Some(columns) ==> columns == if kerning_sum(kerning_pairs@) < 0 {
            -kerning_sum(kerning_pairs@)
        } else {
            0
        },
{
    let mut sum: i32 = 0;
    let mut i: usize = 0;
    assert(kerning_pairs@.take(0) =~= Seq::<KerningPair>::empty());
    while i < kerning_pairs.len()
        invariant
            i <= kerning_pairs@.len(),
            sum == kerning_sum(kerning_pairs@.take(i as int)),
            forall|count: int|
                0 <= count <= i ==> i16::MIN <= #[trigger] kerning_sum(kerning_pairs@.take(count))
                    <= i16::MAX,
        decreases kerning_pairs@.len() - i,
    {
        let ghost next = kerning_pairs@.take(i + 1);
        assert(next.drop_last() =~= kerning_pairs@.take(i as int));
        assert(next.last() == kerning_pairs@[i as int]);
        sum = sum + kerning_pairs[i].adjustment as i32;
        assert(kerning_sum(kerning_pairs@.take(i + 1)) == sum);
        if sum < i16::MIN as i32 || sum > i16::MAX as i32 {
            return None;
        }
        i += 1;
    }
    assert(kerning_pairs@.take(i as int) =~= kerning_pairs@);
    if sum == i16::MIN as i32 {
        return None;
    }
    assert(kerning_fits(kerning_pairs@));
    Some(get_total_kerning_adjustment(kerning_pairs))
}

} // verus!
