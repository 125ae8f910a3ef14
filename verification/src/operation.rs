//! The table of indicators: for each one its name, how many input series
//! it reads and how many output series it writes.

use vstd::prelude::*;
use vstd::string::StringExecFns;

verus! {

/// An indicator that the native engine computes.
#[derive(Clone, Copy, Debug, PartialEq, Eq, Structural)]
pub enum Indicator {
    /// Acceleration bands: high, low and close in; upper, middle and lower band out.
    Accbands,
    /// Vector trigonometric function of one series.
    Acos,
    /// Chaikin accumulation/distribution line: high, low, close and volume in.
    Ad,
    /// Chaikin accumulation/distribution oscillator: high, low, close and volume in.
    Adosc,
    /// Average directional movement index: high, low and close in.
    Adx,
    /// Absolute price oscillator of one series.
    Apo,
    /// Aroon oscillator: high and low in.
    Aroonosc,
    /// Average true range: high, low and close in.
    Atr,
    /// Bollinger bands of one series: upper, middle and lower band out.
    Bbands,
    /// Commodity channel index: high, low and close in.
    Cci,
    /// Moving average of one series, of a selectable kind.
    Ma,
    /// Moving average convergence/divergence: line, signal and histogram out.
    Macd,
    /// MESA adaptive moving average: the average and its following average out.
    Mama,
    /// Money flow index: high, low, close and volume in.
    Mfi,
    /// Minus directional movement: high and low in.
    MinusDm,
    /// Normalized average true range: high, low and close in.
    Natr,
    /// On-balance volume: close and volume in.
    Obv,
    /// Plus directional movement: high and low in.
    PlusDm,
    /// Percentage price oscillator of one series.
    Ppo,
    /// Relative strength index of one series.
    Rsi,
    /// Simple moving average of one series.
    Sma,
    /// Stochastic oscillator: high, low and close in; slow %K and slow %D out.
    Stoch,
    /// Stochastic relative strength index: fast %K and fast %D out.
    Stochrsi,
    /// Ultimate oscillator: high, low and close in.
    Ultosc,
    /// Williams' %R: high, low and close in.
    Willr,
    /// Weighted moving average of one series.
    Wma,
}

/// The precision of the samples in the input series of a call. Output
/// series are double precision either way.
#[derive(Clone, Copy, Debug, PartialEq, Eq, Structural)]
pub enum Precision {
    /// Single-precision input samples.
    Single,
    /// Double-precision input samples.
    Double,
}

/// One callable operation: an indicator together with the precision of
/// the input it is given.
#[derive(Clone, Copy, Debug, PartialEq, Eq, Structural)]
pub struct Operation {
    pub indicator: Indicator,
    pub precision: Precision,
}

/// The most input series any indicator reads.
pub const MAX_INPUTS: usize = 4;

/// The most output series any indicator writes.
pub const MAX_OUTPUTS: usize = 3;

impl Indicator {
    /// The number of input series the indicator reads.
    pub open spec fn input_count(self) -> nat {
        match self {
            Indicator::Acos | Indicator::Apo | Indicator::Bbands | Indicator::Ma
            | Indicator::Macd | Indicator::Mama | Indicator::Ppo | Indicator::Rsi
            | Indicator::Sma | Indicator::Stochrsi | Indicator::Wma => 1,
            Indicator::Aroonosc | Indicator::MinusDm | Indicator::Obv | Indicator::PlusDm => 2,
            Indicator::Accbands | Indicator::Adx | Indicator::Atr | Indicator::Cci
            | Indicator::Natr | Indicator::Stoch | Indicator::Ultosc | Indicator::Willr => 3,
            Indicator::Ad | Indicator::Adosc | Indicator::Mfi => 4,
        }
    }

    /// The number of output series the indicator writes.
    pub open spec fn output_count(self) -> nat {
        match self {
            Indicator::Acos | Indicator::Ad | Indicator::Adosc | Indicator::Adx
            | Indicator::Apo | Indicator::Aroonosc | Indicator::Atr | Indicator::Cci
            | Indicator::Ma | Indicator::Mfi | Indicator::MinusDm | Indicator::Natr
            | Indicator::Obv | Indicator::PlusDm | Indicator::Ppo | Indicator::Rsi
            | Indicator::Sma | Indicator::Ultosc | Indicator::Willr | Indicator::Wma => 1,
            Indicator::Mama | Indicator::Stoch | Indicator::Stochrsi => 2,
            Indicator::Accbands | Indicator::Bbands | Indicator::Macd => 3,
        }
    }

    /// The indicator's name, in lower case.
    pub open spec fn name(self) -> Seq<char> {
        match self {
            Indicator::Accbands => "accbands"@,
            Indicator::Acos => "acos"@,
            Indicator::Ad => "ad"@,
            Indicator::Adosc => "adosc"@,
            Indicator::Adx => "adx"@,
            Indicator::Apo => "apo"@,
            Indicator::Aroonosc => "aroonosc"@,
            Indicator::Atr => "atr"@,
            Indicator::Bbands => "bbands"@,
            Indicator::Cci => "cci"@,
            Indicator::Ma => "ma"@,
            Indicator::Macd => "macd"@,
            Indicator::Mama => "mama"@,
            Indicator::Mfi => "mfi"@,
            Indicator::MinusDm => "minus_dm"@,
            Indicator::Natr => "natr"@,
            Indicator::Obv => "obv"@,
            Indicator::PlusDm => "plus_dm"@,
            Indicator::Ppo => "ppo"@,
            Indicator::Rsi => "rsi"@,
            Indicator::Sma => "sma"@,
            Indicator::Stoch => "stoch"@,
            Indicator::Stochrsi => "stochrsi"@,
            Indicator::Ultosc => "ultosc"@,
            Indicator::Willr => "willr"@,
            Indicator::Wma => "wma"@,
        }
    }

    /// Returns the number of input series the indicator reads.
    pub fn inputs(self) -> (n: usize)
        ensures
            n == self.input_count(),
            1 <= n <= MAX_INPUTS,
    {
        match self {
            Indicator::Acos | Indicator::Apo | Indicator::Bbands | Indicator::Ma
            | Indicator::Macd | Indicator::Mama | Indicator::Ppo | Indicator::Rsi
            | Indicator::Sma | Indicator::Stochrsi | Indicator::Wma => 1,
            Indicator::Aroonosc | Indicator::MinusDm | Indicator::Obv | Indicator::PlusDm => 2,
            Indicator::Accbands | Indicator::Adx | Indicator::Atr | Indicator::Cci
            | Indicator::Natr | Indicator::Stoch | Indicator::Ultosc | Indicator::Willr => 3,
            Indicator::Ad | Indicator::Adosc | Indicator::Mfi => 4,
        }
    }

    /// Returns the number of output series the indicator writes.
    pub fn outputs(self) -> (n: usize)
        ensures
            n == self.output_count(),
            1 <= n <= MAX_OUTPUTS,
    {
        match self {
            Indicator::Acos | Indicator::Ad | Indicator::Adosc | Indicator::Adx
            | Indicator::Apo | Indicator::Aroonosc | Indicator::Atr | Indicator::Cci
            | Indicator::Ma | Indicator::Mfi | Indicator::MinusDm | Indicator::Natr
            | Indicator::Obv | Indicator::PlusDm | Indicator::Ppo | Indicator::Rsi
            | Indicator::Sma | Indicator::Ultosc | Indicator::Willr | Indicator::Wma => 1,
            Indicator::Mama | Indicator::Stoch | Indicator::Stochrsi => 2,
            Indicator::Accbands | Indicator::Bbands | Indicator::Macd => 3,
        }
    }

    /// Returns the indicator's name, in lower case.
    pub fn label(self) -> (s: &'static str)
        ensures
            s@ == self.name(),
    {
        match self {
            Indicator::Accbands => "accbands",
            Indicator::Acos => "acos",
            Indicator::Ad => "ad",
            Indicator::Adosc => "adosc",
            Indicator::Adx => "adx",
            Indicator::Apo => "apo",
            Indicator::Aroonosc => "aroonosc",
            Indicator::Atr => "atr",
            Indicator::Bbands => "bbands",
            Indicator::Cci => "cci",
            Indicator::Ma => "ma",
            Indicator::Macd => "macd",
            Indicator::Mama => "mama",
            Indicator::Mfi => "mfi",
            Indicator::MinusDm => "minus_dm",
            Indicator::Natr => "natr",
            Indicator::Obv => "obv",
            Indicator::PlusDm => "plus_dm",
            Indicator::Ppo => "ppo",
            Indicator::Rsi => "rsi",
            Indicator::Sma => "sma",
            Indicator::Stoch => "stoch",
            Indicator::Stochrsi => "stochrsi",
            Indicator::Ultosc => "ultosc",
            Indicator::Willr => "willr",
            Indicator::Wma => "wma",
        }
    }
}

impl Precision {
    /// What stands in front of an indicator's name in the name of the
    /// operation: nothing for double precision, `s_` for single precision.
    pub open spec fn prefix(self) -> Seq<char> {
        match self {
            Precision::Single => "s_"@,
            Precision::Double => Seq::empty(),
        }
    }
}

impl Operation {
    /// The operation's name: the precision's prefix, then the indicator's name.
    pub open spec fn name(self) -> Seq<char> {
        self.precision.prefix() + self.indicator.name()
    }

    /// Returns the operation's name.
    pub fn label(self) -> (s: String)
        ensures
            s@ == self.name(),
    {
        match self.precision {
            Precision::Single => String::from_str("s_").concat(self.indicator.label()),
            Precision::Double => String::from_str(self.indicator.label()),
        }
    }
}

} // verus!
