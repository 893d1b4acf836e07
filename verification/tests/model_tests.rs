use mystock::model::{default_data_dir, default_system_props, default_user_config};

#[test]
fn defaults() {
    assert_eq!(default_data_dir(), "/Users/niko/Downloads/mystock_parquets");
    let c = default_user_config();
    assert_eq!(c.theme, "dark");
    assert_eq!(c.language, "zh_CN");
    assert_eq!(c.data_dir, default_data_dir());
    assert_eq!(default_system_props().buffer_size, 100);
}
