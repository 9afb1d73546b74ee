//! The candlestick pattern catalogue: which pattern to scan for,
//! the signal sequence a scan produces, and its failure modes.

use vstd::prelude::*;

verus! {

/// The candlestick pattern a scan looks for.
#[derive(Debug, Clone)]
pub enum PatternType {
    /// The 2Crows candlestick pattern.
    Cdl2Crows,
    /// The 3BlackCrows candlestick pattern.
    Cdl3BlackCrows,
    /// The 3Inside candlestick pattern.
    Cdl3Inside,
    /// The 3LineStrike candlestick pattern.
    Cdl3LineStrike,
    /// The 3Outside candlestick pattern.
    Cdl3Outside,
    /// The 3StarsInSouth candlestick pattern.
    Cdl3StarsInSouth,
    /// The 3WhiteSoldiers candlestick pattern.
    Cdl3WhiteSoldiers,
    /// The AbandonedBaby candlestick pattern.
    CdlAbandonedBaby,
    /// The AdvanceBlock candlestick pattern.
    CdlAdvanceBlock,
    /// The BeltHold candlestick pattern.
    CdlBeltHold,
    /// The Breakaway candlestick pattern.
    CdlBreakaway,
    /// The ClosingMarubozu candlestick pattern.
    CdlClosingMarubozu,
    /// The ConcealBabySwall candlestick pattern.
    CdlConcealBabySwall,
    /// The CounterAttack candlestick pattern.
    CdlCounterAttack,
    /// The DarkCloudCover candlestick pattern.
    CdlDarkCloudCover,
    /// The Doji candlestick pattern.
    CdlDoji,
    /// The DojiStar candlestick pattern.
    CdlDojiStar,
    /// The DragonflyDoji candlestick pattern.
    CdlDragonflyDoji,
    /// The Engulfing candlestick pattern.
    CdlEngulfing,
    /// The EveningDojiStar candlestick pattern.
    CdlEveningDojiStar,
    /// The EveningStar candlestick pattern.
    CdlEveningStar,
    /// The GapSideSideWhite candlestick pattern.
    CdlGapSideSideWhite,
    /// The GravestoneDoji candlestick pattern.
    CdlGravestoneDoji,
    /// The Hammer candlestick pattern.
    CdlHammer,
    /// The HangingMan candlestick pattern.
    CdlHangingMan,
    /// The Harami candlestick pattern.
    CdlHarami,
    /// The HaramiCross candlestick pattern.
    CdlHaramiCross,
    /// The HighWave candlestick pattern.
    CdlHighWave,
    /// The Hikkake candlestick pattern.
    CdlHikkake,
    /// The HikkakeMod candlestick pattern.
    CdlHikkakeMod,
    /// The HomingPigeon candlestick pattern.
    CdlHomingPigeon,
    /// The Identical3Crows candlestick pattern.
    CdlIdentical3Crows,
    /// The InNeck candlestick pattern.
    CdlInNeck,
    /// The InvertedHammer candlestick pattern.
    CdlInvertedHammer,
    /// The Kicking candlestick pattern.
    CdlKicking,
    /// The KickingByLength candlestick pattern.
    CdlKickingByLength,
    /// The LadderBottom candlestick pattern.
    CdlLadderBottom,
    /// The LongLeggedDoji candlestick pattern.
    CdlLongLeggedDoji,
    /// The LongLine candlestick pattern.
    CdlLongLine,
    /// The Marubozu candlestick pattern.
    CdlMarubozu,
    /// The MatchingLow candlestick pattern.
    CdlMatchingLow,
    /// The MatHold candlestick pattern.
    CdlMatHold,
    /// The MorningDojiStar candlestick pattern.
    CdlMorningDojiStar,
    /// The MorningStar candlestick pattern.
    CdlMorningStar,
    /// The OnNeck candlestick pattern.
    CdlOnNeck,
    /// The Piercing candlestick pattern.
    CdlPiercing,
    /// The RickshawMan candlestick pattern.
    CdlRickshawMan,
    /// The RiseFall3Methods candlestick pattern.
    CdlRiseFall3Methods,
    /// The SeparatingLines candlestick pattern.
    CdlSeparatingLines,
    /// The ShootingStar candlestick pattern.
    CdlShootingStar,
    /// The ShortLine candlestick pattern.
    CdlShortLine,
    /// The SpinningTop candlestick pattern.
    CdlSpinningTop,
    /// The StalledPattern candlestick pattern.
    CdlStalledPattern,
    /// The StickSandwich candlestick pattern.
    CdlStickSandwich,
    /// The Takuri candlestick pattern.
    CdlTakuri,
    /// The TasukiGap candlestick pattern.
    CdlTasukiGap,
    /// The Thrusting candlestick pattern.
    CdlThrusting,
    /// The Tristar candlestick pattern.
    CdlTristar,
    /// The Unique3River candlestick pattern.
    CdlUnique3River,
    /// The UpsideGap2Crows candlestick pattern.
    CdlUpsideGap2Crows,
    /// The XSideGap3Methods candlestick pattern.
    CdlXSideGap3Methods,
}

/// The signal sequence of a pattern scan: one value per candle,
/// positive for a bullish match, negative for a bearish one, zero
/// for none.
#[derive(Debug, Clone)]
pub struct PatternOutput {
    /// One signal per input candle.
    pub values: Vec<i8>,
}

/// The failures of a pattern scan.
#[derive(Debug, Clone)]
pub enum PatternError {
    /// Fewer candles than the pattern needs.
    NotEnoughData {
        /// The length that was supplied.
        len: usize,
        /// The pattern that was requested.
        pattern: PatternType,
    },
    /// A candle field could not be resolved.
    CandleFieldError(String),
    /// A failure with no closer description.
    Unknown,
}

} // verus!
