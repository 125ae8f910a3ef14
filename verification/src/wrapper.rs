//! Names that are kept callable and compute nothing.
//!
//! An indicator of the native engine has two names: one for
//! double-precision input and one, with `s_` in front, for
//! single-precision input. Each function here takes nothing, returns
//! nothing and leaves the native engine alone: it keeps a name in place.
//!
//! Most of these names belong to indicators that are not in the table of
//! [`operation`](crate::operation). Nine belong to indicators that are:
//! `s_adosc`, `s_apo`, `s_aroonosc`, `s_cci`, `s_mfi`, `s_natr`, `s_ppo`,
//! `s_stochrsi` and `s_willr`. The table describes the single-precision
//! operation of each of them, and [`prepare`](crate::call::prepare) plans
//! a call of it like any other; the function of that name here is not
//! such a call, and computes nothing either.

use vstd::prelude::*;

verus! {

/// Held for `ADD` over double-precision input.
pub fn add() {
}

/// Held for `ADD` over single-precision input.
pub fn s_add() {
}

/// Held for `ADOSC` over single-precision input. The indicator is in the
/// table; this function is no call of it.
pub fn s_adosc() {
}

/// Held for `ADXR` over double-precision input.
pub fn adxr() {
}

/// Held for `ADXR` over single-precision input.
pub fn s_adxr() {
}

/// Held for `APO` over single-precision input. The indicator is in the
/// table; this function is no call of it.
pub fn s_apo() {
}

/// Held for `AROON` over double-precision input.
pub fn aroon() {
}

/// Held for `AROON` over single-precision input.
pub fn s_aroon() {
}

/// Held for `AROONOSC` over single-precision input. The indicator is in the
/// table; this function is no call of it.
pub fn s_aroonosc() {
}

/// Held for `ASIN` over double-precision input.
pub fn asin() {
}

/// Held for `ASIN` over single-precision input.
pub fn s_asin() {
}

/// Held for `ATAN` over double-precision input.
pub fn atan() {
}

/// Held for `ATAN` over single-precision input.
pub fn s_atan() {
}

/// Held for `AVGPRICE` over double-precision input.
pub fn avgprice() {
}

/// Held for `AVGPRICE` over single-precision input.
pub fn s_avgprice() {
}

/// Held for `AVGDEV` over double-precision input.
pub fn avgdev() {
}

/// Held for `AVGDEV` over single-precision input.
pub fn s_avgdev() {
}

/// Held for `BETA` over double-precision input.
pub fn beta() {
}

/// Held for `BETA` over single-precision input.
pub fn s_beta() {
}

/// Held for `BOP` over double-precision input.
pub fn bop() {
}

/// Held for `BOP` over single-precision input.
pub fn s_bop() {
}

/// Held for `CCI` over single-precision input. The indicator is in the
/// table; this function is no call of it.
pub fn s_cci() {
}

/// Held for `CDL2CROWS` over double-precision input.
pub fn cdl2crows() {
}

/// Held for `CDL2CROWS` over single-precision input.
pub fn s_cdl2crows() {
}

/// Held for `CDL3BLACKCROWS` over double-precision input.
pub fn cdl3blackcrows() {
}

/// Held for `CDL3BLACKCROWS` over single-precision input.
pub fn s_cdl3blackcrows() {
}

/// Held for `CDL3INSIDE` over double-precision input.
pub fn cdl3inside() {
}

/// Held for `CDL3INSIDE` over single-precision input.
pub fn s_cdl3inside() {
}

/// Held for `CDL3LINESTRIKE` over double-precision input.
pub fn cdl3linestrike() {
}

/// Held for `CDL3LINESTRIKE` over single-precision input.
pub fn s_cdl3linestrike() {
}

/// Held for `CDL3OUTSIDE` over double-precision input.
pub fn cdl3outside() {
}

/// Held for `CDL3OUTSIDE` over single-precision input.
pub fn s_cdl3outside() {
}

/// Held for `CDL3STARSINSOUTH` over double-precision input.
pub fn cdl3starsinsouth() {
}

/// Held for `CDL3STARSINSOUTH` over single-precision input.
pub fn s_cdl3starsinsouth() {
}

/// Held for `CDL3WHITESOLDIERS` over double-precision input.
pub fn cdl3whitesoldiers() {
}

/// Held for `CDL3WHITESOLDIERS` over single-precision input.
pub fn s_cdl3whitesoldiers() {
}

/// Held for `CDLABANDONEDBABY` over double-precision input.
pub fn cdlabandonedbaby() {
}

/// Held for `CDLABANDONEDBABY` over single-precision input.
pub fn s_cdlabandonedbaby() {
}

/// Held for `CDLADVANCEBLOCK` over double-precision input.
pub fn cdladvanceblock() {
}

/// Held for `CDLADVANCEBLOCK` over single-precision input.
pub fn s_cdladvanceblock() {
}

/// Held for `CDLBELTHOLD` over double-precision input.
pub fn cdlbelthold() {
}

/// Held for `CDLBELTHOLD` over single-precision input.
pub fn s_cdlbelthold() {
}

/// Held for `CDLBREAKAWAY` over double-precision input.
pub fn cdlbreakaway() {
}

/// Held for `CDLBREAKAWAY` over single-precision input.
pub fn s_cdlbreakaway() {
}

/// Held for `CDLCLOSINGMARUBOZU` over double-precision input.
pub fn cdlclosingmarubozu() {
}

/// Held for `CDLCLOSINGMARUBOZU` over single-precision input.
pub fn s_cdlclosingmarubozu() {
}

/// Held for `CDLCONCEALBABYSWALL` over double-precision input.
pub fn cdlconcealbabyswall() {
}

/// Held for `CDLCONCEALBABYSWALL` over single-precision input.
pub fn s_cdlconcealbabyswall() {
}

/// Held for `CDLCOUNTERATTACK` over double-precision input.
pub fn cdlcounterattack() {
}

/// Held for `CDLCOUNTERATTACK` over single-precision input.
pub fn s_cdlcounterattack() {
}

/// Held for `CDLDARKCLOUDCOVER` over double-precision input.
pub fn cdldarkcloudcover() {
}

/// Held for `CDLDARKCLOUDCOVER` over single-precision input.
pub fn s_cdldarkcloudcover() {
}

/// Held for `CDLDOJI` over double-precision input.
pub fn cdldoji() {
}

/// Held for `CDLDOJI` over single-precision input.
pub fn s_cdldoji() {
}

/// Held for `CDLDOJISTAR` over double-precision input.
pub fn cdldojistar() {
}

/// Held for `CDLDOJISTAR` over single-precision input.
pub fn s_cdldojistar() {
}

/// Held for `CDLDRAGONFLYDOJI` over double-precision input.
pub fn cdldragonflydoji() {
}

/// Held for `CDLDRAGONFLYDOJI` over single-precision input.
pub fn s_cdldragonflydoji() {
}

/// Held for `CDLENGULFING` over double-precision input.
pub fn cdlengulfing() {
}

/// Held for `CDLENGULFING` over single-precision input.
pub fn s_cdlengulfing() {
}

/// Held for `CDLEVENINGDOJISTAR` over double-precision input.
pub fn cdleveningdojistar() {
}

/// Held for `CDLEVENINGDOJISTAR` over single-precision input.
pub fn s_cdleveningdojistar() {
}

/// Held for `CDLEVENINGSTAR` over double-precision input.
pub fn cdleveningstar() {
}

/// Held for `CDLEVENINGSTAR` over single-precision input.
pub fn s_cdleveningstar() {
}

/// Held for `CDLGAPSIDESIDEWHITE` over double-precision input.
pub fn cdlgapsidesidewhite() {
}

/// Held for `CDLGAPSIDESIDEWHITE` over single-precision input.
pub fn s_cdlgapsidesidewhite() {
}

/// Held for `CDLGRAVESTONEDOJI` over double-precision input.
pub fn cdlgravestonedoji() {
}

/// Held for `CDLGRAVESTONEDOJI` over single-precision input.
pub fn s_cdlgravestonedoji() {
}

/// Held for `CDLHAMMER` over double-precision input.
pub fn cdlhammer() {
}

/// Held for `CDLHAMMER` over single-precision input.
pub fn s_cdlhammer() {
}

/// Held for `CDLHANGINGMAN` over double-precision input.
pub fn cdlhangingman() {
}

/// Held for `CDLHANGINGMAN` over single-precision input.
pub fn s_cdlhangingman() {
}

/// Held for `CDLHARAMI` over double-precision input.
pub fn cdlharami() {
}

/// Held for `CDLHARAMI` over single-precision input.
pub fn s_cdlharami() {
}

/// Held for `CDLHARAMICROSS` over double-precision input.
pub fn cdlharamicross() {
}

/// Held for `CDLHARAMICROSS` over single-precision input.
pub fn s_cdlharamicross() {
}

/// Held for `CDLHIGHWAVE` over double-precision input.
pub fn cdlhighwave() {
}

/// Held for `CDLHIGHWAVE` over single-precision input.
pub fn s_cdlhighwave() {
}

/// Held for `CDLHIKKAKE` over double-precision input.
pub fn cdlhikkake() {
}

/// Held for `CDLHIKKAKE` over single-precision input.
pub fn s_cdlhikkake() {
}

/// Held for `CDLHIKKAKEMOD` over double-precision input.
pub fn cdlhikkakemod() {
}

/// Held for `CDLHIKKAKEMOD` over single-precision input.
pub fn s_cdlhikkakemod() {
}

/// Held for `CDLHOMINGPIGEON` over double-precision input.
pub fn cdlhomingpigeon() {
}

/// Held for `CDLHOMINGPIGEON` over single-precision input.
pub fn s_cdlhomingpigeon() {
}

/// Held for `CDLIDENTICAL3CROWS` over double-precision input.
pub fn cdlidentical3crows() {
}

/// Held for `CDLIDENTICAL3CROWS` over single-precision input.
pub fn s_cdlidentical3crows() {
}

/// Held for `CDLINNECK` over double-precision input.
pub fn cdlinneck() {
}

/// Held for `CDLINNECK` over single-precision input.
pub fn s_cdlinneck() {
}

/// Held for `CDLINVERTEDHAMMER` over double-precision input.
pub fn cdlinvertedhammer() {
}

/// Held for `CDLINVERTEDHAMMER` over single-precision input.
pub fn s_cdlinvertedhammer() {
}

/// Held for `CDLKICKING` over double-precision input.
pub fn cdlkicking() {
}

/// Held for `CDLKICKING` over single-precision input.
pub fn s_cdlkicking() {
}

/// Held for `CDLKICKINGBYLENGTH` over double-precision input.
pub fn cdlkickingbylength() {
}

/// Held for `CDLKICKINGBYLENGTH` over single-precision input.
pub fn s_cdlkickingbylength() {
}

/// Held for `CDLLADDERBOTTOM` over double-precision input.
pub fn cdlladderbottom() {
}

/// Held for `CDLLADDERBOTTOM` over single-precision input.
pub fn s_cdlladderbottom() {
}

/// Held for `CDLLONGLEGGEDDOJI` over double-precision input.
pub fn cdllongleggeddoji() {
}

/// Held for `CDLLONGLEGGEDDOJI` over single-precision input.
pub fn s_cdllongleggeddoji() {
}

/// Held for `CDLLONGLINE` over double-precision input.
pub fn cdllongline() {
}

/// Held for `CDLLONGLINE` over single-precision input.
pub fn s_cdllongline() {
}

/// Held for `CDLMARUBOZU` over double-precision input.
pub fn cdlmarubozu() {
}

/// Held for `CDLMARUBOZU` over single-precision input.
pub fn s_cdlmarubozu() {
}

/// Held for `CDLMATCHINGLOW` over double-precision input.
pub fn cdlmatchinglow() {
}

/// Held for `CDLMATCHINGLOW` over single-precision input.
pub fn s_cdlmatchinglow() {
}

/// Held for `CDLMATHOLD` over double-precision input.
pub fn cdlmathold() {
}

/// Held for `CDLMATHOLD` over single-precision input.
pub fn s_cdlmathold() {
}

/// Held for `CDLMORNINGDOJISTAR` over double-precision input.
pub fn cdlmorningdojistar() {
}

/// Held for `CDLMORNINGDOJISTAR` over single-precision input.
pub fn s_cdlmorningdojistar() {
}

/// Held for `CDLMORNINGSTAR` over double-precision input.
pub fn cdlmorningstar() {
}

/// Held for `CDLMORNINGSTAR` over single-precision input.
pub fn s_cdlmorningstar() {
}

/// Held for `CDLONNECK` over double-precision input.
pub fn cdlonneck() {
}

/// Held for `CDLONNECK` over single-precision input.
pub fn s_cdlonneck() {
}

/// Held for `CDLPIERCING` over double-precision input.
pub fn cdlpiercing() {
}

/// Held for `CDLPIERCING` over single-precision input.
pub fn s_cdlpiercing() {
}

/// Held for `CDLRICKSHAWMAN` over double-precision input.
pub fn cdlrickshawman() {
}

/// Held for `CDLRICKSHAWMAN` over single-precision input.
pub fn s_cdlrickshawman() {
}

/// Held for `CDLRISEFALL3METHODS` over double-precision input.
pub fn cdlrisefall3methods() {
}

/// Held for `CDLRISEFALL3METHODS` over single-precision input.
pub fn s_cdlrisefall3methods() {
}

/// Held for `CDLSEPARATINGLINES` over double-precision input.
pub fn cdlseparatinglines() {
}

/// Held for `CDLSEPARATINGLINES` over single-precision input.
pub fn s_cdlseparatinglines() {
}

/// Held for `CDLSHOOTINGSTAR` over double-precision input.
pub fn cdlshootingstar() {
}

/// Held for `CDLSHOOTINGSTAR` over single-precision input.
pub fn s_cdlshootingstar() {
}

/// Held for `CDLSHORTLINE` over double-precision input.
pub fn cdlshortline() {
}

/// Held for `CDLSHORTLINE` over single-precision input.
pub fn s_cdlshortline() {
}

/// Held for `CDLSPINNINGTOP` over double-precision input.
pub fn cdlspinningtop() {
}

/// Held for `CDLSPINNINGTOP` over single-precision input.
pub fn s_cdlspinningtop() {
}

/// Held for `CDLSTALLEDPATTERN` over double-precision input.
pub fn cdlstalledpattern() {
}

/// Held for `CDLSTALLEDPATTERN` over single-precision input.
pub fn s_cdlstalledpattern() {
}

/// Held for `CDLSTICKSANDWICH` over double-precision input.
pub fn cdlsticksandwich() {
}

/// Held for `CDLSTICKSANDWICH` over single-precision input.
pub fn s_cdlsticksandwich() {
}

/// Held for `CDLTAKURI` over double-precision input.
pub fn cdltakuri() {
}

/// Held for `CDLTAKURI` over single-precision input.
pub fn s_cdltakuri() {
}

/// Held for `CDLTASUKIGAP` over double-precision input.
pub fn cdltasukigap() {
}

/// Held for `CDLTASUKIGAP` over single-precision input.
pub fn s_cdltasukigap() {
}

/// Held for `CDLTHRUSTING` over double-precision input.
pub fn cdlthrusting() {
}

/// Held for `CDLTHRUSTING` over single-precision input.
pub fn s_cdlthrusting() {
}

/// Held for `CDLTRISTAR` over double-precision input.
pub fn cdltristar() {
}

/// Held for `CDLTRISTAR` over single-precision input.
pub fn s_cdltristar() {
}

/// Held for `CDLUNIQUE3RIVER` over double-precision input.
pub fn cdlunique3river() {
}

/// Held for `CDLUNIQUE3RIVER` over single-precision input.
pub fn s_cdlunique3river() {
}

/// Held for `CDLUPSIDEGAP2CROWS` over double-precision input.
pub fn cdlupsidegap2crows() {
}

/// Held for `CDLUPSIDEGAP2CROWS` over single-precision input.
pub fn s_cdlupsidegap2crows() {
}

/// Held for `CDLXSIDEGAP3METHODS` over double-precision input.
pub fn cdlxsidegap3methods() {
}

/// Held for `CDLXSIDEGAP3METHODS` over single-precision input.
pub fn s_cdlxsidegap3methods() {
}

/// Held for `CEIL` over double-precision input.
pub fn ceil() {
}

/// Held for `CEIL` over single-precision input.
pub fn s_ceil() {
}

/// Held for `CMO` over double-precision input.
pub fn cmo() {
}

/// Held for `CMO` over single-precision input.
pub fn s_cmo() {
}

/// Held for `CORREL` over double-precision input.
pub fn correl() {
}

/// Held for `CORREL` over single-precision input.
pub fn s_correl() {
}

/// Held for `COS` over double-precision input.
pub fn cos() {
}

/// Held for `COS` over single-precision input.
pub fn s_cos() {
}

/// Held for `COSH` over double-precision input.
pub fn cosh() {
}

/// Held for `COSH` over single-precision input.
pub fn s_cosh() {
}

/// Held for `DEMA` over double-precision input.
pub fn dema() {
}

/// Held for `DEMA` over single-precision input.
pub fn s_dema() {
}

/// Held for `DIV` over double-precision input.
pub fn div() {
}

/// Held for `DIV` over single-precision input.
pub fn s_div() {
}

/// Held for `DX` over double-precision input.
pub fn dx() {
}

/// Held for `DX` over single-precision input.
pub fn s_dx() {
}

/// Held for `EMA` over double-precision input.
pub fn ema() {
}

/// Held for `EMA` over single-precision input.
pub fn s_ema() {
}

/// Held for `EXP` over double-precision input.
pub fn exp() {
}

/// Held for `EXP` over single-precision input.
pub fn s_exp() {
}

/// Held for `FLOOR` over double-precision input.
pub fn floor() {
}

/// Held for `FLOOR` over single-precision input.
pub fn s_floor() {
}

/// Held for `HT_DCPERIOD` over double-precision input.
pub fn ht_dcperiod() {
}

/// Held for `HT_DCPERIOD` over single-precision input.
pub fn s_ht_dcperiod() {
}

/// Held for `HT_DCPHASE` over double-precision input.
pub fn ht_dcphase() {
}

/// Held for `HT_DCPHASE` over single-precision input.
pub fn s_ht_dcphase() {
}

/// Held for `HT_PHASOR` over double-precision input.
pub fn ht_phasor() {
}

/// Held for `HT_PHASOR` over single-precision input.
pub fn s_ht_phasor() {
}

/// Held for `HT_SINE` over double-precision input.
pub fn ht_sine() {
}

/// Held for `HT_SINE` over single-precision input.
pub fn s_ht_sine() {
}

/// Held for `HT_TRENDLINE` over double-precision input.
pub fn ht_trendline() {
}

/// Held for `HT_TRENDLINE` over single-precision input.
pub fn s_ht_trendline() {
}

/// Held for `HT_TRENDMODE` over double-precision input.
pub fn ht_trendmode() {
}

/// Held for `HT_TRENDMODE` over single-precision input.
pub fn s_ht_trendmode() {
}

/// Held for `IMI` over double-precision input.
pub fn imi() {
}

/// Held for `IMI` over single-precision input.
pub fn s_imi() {
}

/// Held for `KAMA` over double-precision input.
pub fn kama() {
}

/// Held for `KAMA` over single-precision input.
pub fn s_kama() {
}

/// Held for `LINEARREG` over double-precision input.
pub fn linearreg() {
}

/// Held for `LINEARREG` over single-precision input.
pub fn s_linearreg() {
}

/// Held for `LINEARREG_ANGLE` over double-precision input.
pub fn linearreg_angle() {
}

/// Held for `LINEARREG_ANGLE` over single-precision input.
pub fn s_linearreg_angle() {
}

/// Held for `LINEARREG_INTERCEPT` over double-precision input.
pub fn linearreg_intercept() {
}

/// Held for `LINEARREG_INTERCEPT` over single-precision input.
pub fn s_linearreg_intercept() {
}

/// Held for `LINEARREG_SLOPE` over double-precision input.
pub fn linearreg_slope() {
}

/// Held for `LINEARREG_SLOPE` over single-precision input.
pub fn s_linearreg_slope() {
}

/// Held for `LN` over double-precision input.
pub fn ln() {
}

/// Held for `LN` over single-precision input.
pub fn s_ln() {
}

/// Held for `LOG10` over double-precision input.
pub fn log10() {
}

/// Held for `LOG10` over single-precision input.
pub fn s_log10() {
}

/// Held for `MACDEXT` over double-precision input.
pub fn macdext() {
}

/// Held for `MACDEXT` over single-precision input.
pub fn s_macdext() {
}

/// Held for `MACDFIX` over double-precision input.
pub fn macdfix() {
}

/// Held for `MACDFIX` over single-precision input.
pub fn s_macdfix() {
}

/// Held for `MAVP` over double-precision input.
pub fn mavp() {
}

/// Held for `MAVP` over single-precision input.
pub fn s_mavp() {
}

/// Held for `MAX` over double-precision input.
pub fn max() {
}

/// Held for `MAX` over single-precision input.
pub fn s_max() {
}

/// Held for `MAXINDEX` over double-precision input.
pub fn maxindex() {
}

/// Held for `MAXINDEX` over single-precision input.
pub fn s_maxindex() {
}

/// Held for `MEDPRICE` over double-precision input.
pub fn medprice() {
}

/// Held for `MEDPRICE` over single-precision input.
pub fn s_medprice() {
}

/// Held for `MFI` over single-precision input. The indicator is in the
/// table; this function is no call of it.
pub fn s_mfi() {
}

/// Held for `MIDPOINT` over double-precision input.
pub fn midpoint() {
}

/// Held for `MIDPOINT` over single-precision input.
pub fn s_midpoint() {
}

/// Held for `MIDPRICE` over double-precision input.
pub fn midprice() {
}

/// Held for `MIDPRICE` over single-precision input.
pub fn s_midprice() {
}

/// Held for `MIN` over double-precision input.
pub fn min() {
}

/// Held for `MIN` over single-precision input.
pub fn s_min() {
}

/// Held for `MININDEX` over double-precision input.
pub fn minindex() {
}

/// Held for `MININDEX` over single-precision input.
pub fn s_minindex() {
}

/// Held for `MINMAX` over double-precision input.
pub fn minmax() {
}

/// Held for `MINMAX` over single-precision input.
pub fn s_minmax() {
}

/// Held for `MINMAXINDEX` over double-precision input.
pub fn minmaxindex() {
}

/// Held for `MINMAXINDEX` over single-precision input.
pub fn s_minmaxindex() {
}

/// Held for `MINUS_DI` over double-precision input.
pub fn minus_di() {
}

/// Held for `MINUS_DI` over single-precision input.
pub fn s_minus_di() {
}

/// Held for `MOM` over double-precision input.
pub fn mom() {
}

/// Held for `MOM` over single-precision input.
pub fn s_mom() {
}

/// Held for `MULT` over double-precision input.
pub fn mult() {
}

/// Held for `MULT` over single-precision input.
pub fn s_mult() {
}

/// Held for `NATR` over single-precision input. The indicator is in the
/// table; this function is no call of it.
pub fn s_natr() {
}

/// Held for `PLUS_DI` over double-precision input.
pub fn plus_di() {
}

/// Held for `PLUS_DI` over single-precision input.
pub fn s_plus_di() {
}

/// Held for `PPO` over single-precision input. The indicator is in the
/// table; this function is no call of it.
pub fn s_ppo() {
}

/// Held for `ROC` over double-precision input.
pub fn roc() {
}

/// Held for `ROC` over single-precision input.
pub fn s_roc() {
}

/// Held for `ROCP` over double-precision input.
pub fn rocp() {
}

/// Held for `ROCP` over single-precision input.
pub fn s_rocp() {
}

/// Held for `ROCR` over double-precision input.
pub fn rocr() {
}

/// Held for `ROCR` over single-precision input.
pub fn s_rocr() {
}

/// Held for `ROCR100` over double-precision input.
pub fn rocr100() {
}

/// Held for `ROCR100` over single-precision input.
pub fn s_rocr100() {
}

/// Held for `SAR` over double-precision input.
pub fn sar() {
}

/// Held for `SAR` over single-precision input.
pub fn s_sar() {
}

/// Held for `SAREXT` over double-precision input.
pub fn sarext() {
}

/// Held for `SAREXT` over single-precision input.
pub fn s_sarext() {
}

/// Held for `SIN` over double-precision input.
pub fn sin() {
}

/// Held for `SIN` over single-precision input.
pub fn s_sin() {
}

/// Held for `SINH` over double-precision input.
pub fn sinh() {
}

/// Held for `SINH` over single-precision input.
pub fn s_sinh() {
}

/// Held for `SQRT` over double-precision input.
pub fn sqrt() {
}

/// Held for `SQRT` over single-precision input.
pub fn s_sqrt() {
}

/// Held for `STDDEV` over double-precision input.
pub fn stddev() {
}

/// Held for `STDDEV` over single-precision input.
pub fn s_stddev() {
}

/// Held for `STOCHF` over double-precision input.
pub fn stochf() {
}

/// Held for `STOCHF` over single-precision input.
pub fn s_stochf() {
}

/// Held for `STOCHRSI` over single-precision input. The indicator is in the
/// table; this function is no call of it.
pub fn s_stochrsi() {
}

/// Held for `SUB` over double-precision input.
pub fn sub() {
}

/// Held for `SUB` over single-precision input.
pub fn s_sub() {
}

/// Held for `SUM` over double-precision input.
pub fn sum() {
}

/// Held for `SUM` over single-precision input.
pub fn s_sum() {
}

/// Held for `T3` over double-precision input.
pub fn t3() {
}

/// Held for `T3` over single-precision input.
pub fn s_t3() {
}

/// Held for `TAN` over double-precision input.
pub fn tan() {
}

/// Held for `TAN` over single-precision input.
pub fn s_tan() {
}

/// Held for `TANH` over double-precision input.
pub fn tanh() {
}

/// Held for `TANH` over single-precision input.
pub fn s_tanh() {
}

/// Held for `TEMA` over double-precision input.
pub fn tema() {
}

/// Held for `TEMA` over single-precision input.
pub fn s_tema() {
}

/// Held for `TRANGE` over double-precision input.
pub fn trange() {
}

/// Held for `TRANGE` over single-precision input.
pub fn s_trange() {
}

/// Held for `TRIMA` over double-precision input.
pub fn trima() {
}

/// Held for `TRIMA` over single-precision input.
pub fn s_trima() {
}

/// Held for `TRIX` over double-precision input.
pub fn trix() {
}

/// Held for `TRIX` over single-precision input.
pub fn s_trix() {
}

/// Held for `TSF` over double-precision input.
pub fn tsf() {
}

/// Held for `TSF` over single-precision input.
pub fn s_tsf() {
}

/// Held for `TYPPRICE` over double-precision input.
pub fn typprice() {
}

/// Held for `TYPPRICE` over single-precision input.
pub fn s_typprice() {
}

/// Held for `VAR` over double-precision input.
pub fn var() {
}

/// Held for `VAR` over single-precision input.
pub fn s_var() {
}

/// Held for `WCLPRICE` over double-precision input.
pub fn wclprice() {
}

/// Held for `WCLPRICE` over single-precision input.
pub fn s_wclprice() {
}

/// Held for `WILLR` over single-precision input. The indicator is in the
/// table; this function is no call of it.
pub fn s_willr() {
}

} // verus!
