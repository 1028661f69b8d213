use struggle::adapter::select_adapter;
use struggle::adapter::Adapter;
use struggle::adapter::AdapterKind;
use struggle::adapter::AdapterSearch;
use struggle::adapter::Probe;
use struggle::adapter::Probed;
use struggle::adapter::SelectError;
use struggle::adapter::Selection;
use struggle::adapter::Stage;
use struggle::adapter::ADAPTER_FLAG_SOFTWARE;
use struggle::adapter::FEATURE_LEVEL;
use struggle::adapter::NOT_FOUND;

const HARDWARE: Probed = Probed::Adapter { flags: 0 };
const SOFTWARE: Probed = Probed::Adapter { flags: ADAPTER_FLAG_SOFTWARE };
const WARP: Probed = Probed::Adapter { flags: ADAPTER_FLAG_SOFTWARE };

#[test]
fn preference_codes() {
    assert_eq!(AdapterKind::Unspecified.map_to_dxgi(), 0);
    assert_eq!(AdapterKind::MinimumPower.map_to_dxgi(), 1);
    assert_eq!(AdapterKind::HighPerformance.map_to_dxgi(), 2);
}

#[test]
fn device_is_made_for_feature_level_eleven() {
    assert_eq!(FEATURE_LEVEL, 0xb000);
    assert!(Adapter::new(true).debug_layer);
    assert!(!Adapter::new(false).debug_layer);
}

#[test]
fn first_hardware_adapter_is_selected() {
    let answers = vec![HARDWARE, HARDWARE];
    assert_eq!(
        select_adapter(&AdapterKind::HighPerformance, &answers, WARP),
        Ok(Selection::Hardware { index: 0 })
    );
}

#[test]
fn software_adapters_are_passed_over() {
    let answers = vec![SOFTWARE, Probed::Adapter { flags: 2 | 8 }, Probed::Adapter { flags: 8 }, HARDWARE];
    assert_eq!(
        select_adapter(&AdapterKind::MinimumPower, &answers, WARP),
        Ok(Selection::Hardware { index: 2 })
    );
}

#[test]
fn exhausted_enumeration_falls_back_to_the_software_rasterizer() {
    assert_eq!(select_adapter(&AdapterKind::HighPerformance, &vec![], WARP), Ok(Selection::Warp));
    assert_eq!(
        select_adapter(&AdapterKind::HighPerformance, &vec![SOFTWARE, SOFTWARE], WARP),
        Ok(Selection::Warp)
    );
}

#[test]
fn enumeration_ends_at_the_first_missing_adapter() {
    let answers = vec![SOFTWARE, Probed::Missing { code: NOT_FOUND }, HARDWARE];
    assert_eq!(select_adapter(&AdapterKind::HighPerformance, &answers, WARP), Ok(Selection::Warp));
}

#[test]
fn selection_fails_without_any_adapter() {
    let missing = Probed::Missing { code: -7 };
    assert_eq!(
        select_adapter(&AdapterKind::HighPerformance, &vec![SOFTWARE], missing),
        Err(SelectError::NoAdapter { code: -7 })
    );
    assert_eq!(
        select_adapter(&AdapterKind::HighPerformance, &vec![], Probed::Failed { code: -9 }),
        Err(SelectError::NoAdapter { code: -9 })
    );
}

#[test]
fn adapter_without_description_ends_the_selection() {
    let answers = vec![SOFTWARE, Probed::Failed { code: -3 }, HARDWARE];
    assert_eq!(
        select_adapter(&AdapterKind::HighPerformance, &answers, WARP),
        Err(SelectError::Undescribed { code: -3 })
    );
}

#[test]
fn search_asks_index_by_index_with_the_preference() {
    let mut search = AdapterSearch::new(AdapterKind::HighPerformance);
    assert_eq!(search.probe(), Some(Probe::Enumerate { index: 0, preference: 2 }));
    assert_eq!(search.outcome(), None);
    search.observe(SOFTWARE);
    assert_eq!(search.probe(), Some(Probe::Enumerate { index: 1, preference: 2 }));
    search.observe(SOFTWARE);
    assert_eq!(search.probe(), Some(Probe::Enumerate { index: 2, preference: 2 }));
    search.observe(HARDWARE);
    assert_eq!(search.probe(), None);
    assert_eq!(search.outcome(), Some(Ok(Selection::Hardware { index: 2 })));
    search.observe(SOFTWARE);
    assert_eq!(search.outcome(), Some(Ok(Selection::Hardware { index: 2 })));
}

#[test]
fn search_falls_back_when_the_enumeration_ends() {
    let mut search = AdapterSearch::new(AdapterKind::Unspecified);
    assert_eq!(search.probe(), Some(Probe::Enumerate { index: 0, preference: 0 }));
    search.observe(Probed::Missing { code: NOT_FOUND });
    assert_eq!(search.stage, Stage::FallingBack);
    assert_eq!(search.probe(), Some(Probe::Warp));
    search.observe(WARP);
    assert_eq!(search.outcome(), Some(Ok(Selection::Warp)));
    assert_eq!(search.probe(), None);
}

#[test]
fn search_fails_when_the_fallback_is_missing() {
    let mut search = AdapterSearch::new(AdapterKind::MinimumPower);
    search.observe(Probed::Missing { code: NOT_FOUND });
    search.observe(Probed::Missing { code: -5 });
    assert_eq!(search.outcome(), Some(Err(SelectError::NoAdapter { code: -5 })));
    assert_eq!(search.probe(), None);
    search.observe(HARDWARE);
    assert_eq!(search.outcome(), Some(Err(SelectError::NoAdapter { code: -5 })));
}

#[test]
fn search_stops_at_the_largest_index() {
    let mut search = AdapterSearch {
        prefer: AdapterKind::HighPerformance,
        stage: Stage::Enumerating { index: u32::MAX },
    };
    search.observe(SOFTWARE);
    assert_eq!(search.probe(), Some(Probe::Warp));
}
