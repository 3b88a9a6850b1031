use kugou_dsp::presets::{allowed_list_text, is_cli_allowed, name_of, presets, CLI_ALLOWED};

#[test]
fn allowed_list_text_is_the_whitelist() {
    assert_eq!(allowed_list_text(), "1=3D丽音  2=超重低音  3=纯净人声  4=HIFI现场");
}

#[test]
fn whitelist_is_one_to_four() {
    assert_eq!(CLI_ALLOWED, [1, 2, 3, 4]);
    for id in -2..=12 {
        assert_eq!(is_cli_allowed(id), (1..=4).contains(&id), "id {}", id);
    }
    assert!(!is_cli_allowed(i32::MIN));
    assert!(!is_cli_allowed(i32::MAX));
}

#[test]
fn names_of_known_presets() {
    assert_eq!(name_of(-1), Some("默认"));
    assert_eq!(name_of(1), Some("3D丽音"));
    assert_eq!(name_of(4), Some("HIFI现场"));
    assert_eq!(name_of(6), Some("5.1全景"));
    assert_eq!(name_of(10), Some("声乐古风"));
    assert_eq!(name_of(0), None);
    assert_eq!(name_of(11), None);
    assert_eq!(name_of(-2), None);
}

#[test]
fn preset_table_order_and_descriptions() {
    let t = presets();
    assert_eq!(t.len(), 11);
    let ids: Vec<i32> = t.iter().map(|p| p.id).collect();
    assert_eq!(ids, vec![-1, 1, 2, 3, 4, 5, 6, 7, 8, 9, 10]);
    assert_eq!(t[0].desc, "关闭音效，重置引擎默认参数");
    assert_eq!(t[2].name, "超重低音");
    assert_eq!(t[2].desc, "低频增强");
}

#[test]
fn every_whitelisted_preset_has_a_name() {
    for id in CLI_ALLOWED {
        assert!(name_of(id).is_some());
    }
}

#[test]
fn known_presets_lie_in_engine_range() {
    for id in -200..=200 {
        if name_of(id).is_some() {
            assert!(id == -1 || (0..=112).contains(&id));
        }
    }
}
