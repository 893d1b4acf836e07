use mystock::error::SysError;
use mystock::indicator::{
    all_kline_patterns, is_kline_special, last_signal, KLinePattern, PatternRoutine,
    DEFAULT_PENETRATION_BITS,
};

#[test]
fn names_read_back() {
    for kp in all_kline_patterns() {
        assert_eq!(KLinePattern::from(kp.to_string()), kp);
    }
    assert_eq!(KLinePattern::Unknown.to_string(), "unknown");
    assert_eq!(KLinePattern::from("unknown".to_string()), KLinePattern::Unknown);
    assert_eq!(KLinePattern::from("nothing".to_string()), KLinePattern::Unknown);
    let sp = KLinePattern::CDLDarkCloudCoverSP(0.3f64.to_bits());
    assert_eq!(sp.to_string(), "unknown");
    assert_eq!(KLinePattern::CDL2Crows.to_string(), "cDL2Crows");
}

#[test]
fn patterns_checked_in_order() {
    let names: Vec<String> = all_kline_patterns().iter().map(|k| k.to_string()).collect();
    assert_eq!(
        names,
        vec![
            "cDLDarkCloudCover",
            "cDL2Crows",
            "cDL3BlackCrows",
            "cDLUpSideGap2Crows",
            "cDLDojiStar",
            "cDLEveningDojiStar",
            "cDLIdentical3Crows"
        ]
    );
}

#[test]
fn routines_and_penetration() {
    assert_eq!(DEFAULT_PENETRATION_BITS, 0.5f64.to_bits());
    assert_eq!(
        KLinePattern::CDLDarkCloudCover.routine(),
        Ok(PatternRoutine::DarkCloudCover(0.5f64.to_bits()))
    );
    assert_eq!(
        KLinePattern::CDLEveningDojiStarSP(0.7f64.to_bits()).routine(),
        Ok(PatternRoutine::EveningDojiStar(0.7f64.to_bits()))
    );
    assert_eq!(KLinePattern::CDL3BlackCrows.routine(), Ok(PatternRoutine::ThreeBlackCrows));
    assert_eq!(
        KLinePattern::Unknown.routine(),
        Err(SysError::Anyhow("kline pattern not implemented".to_string()))
    );
}

#[test]
fn signals() {
    assert_eq!(last_signal(&vec![]), 0);
    assert_eq!(last_signal(&vec![0, 0, -100]), -100);
    assert!(!is_kline_special(&vec![0, 0, 0]));
    assert!(is_kline_special(&vec![0, 100, 0]));
    assert!(!is_kline_special(&vec![]));
}
