use tye_home::app::{
    app_storage_key, layout_storage_key, storage_key, Example, InitError, Layout, LayoutData,
    MyApp, Page, PageData, PageStore, EXAMPLE_VALUE_BITS,
};

fn edited_example(label: &str, value_bits: u32) -> PageData {
    PageData::Example(Example { label: label.to_string(), value_bits })
}

#[test]
fn storage_keys_are_namespaced() {
    assert_eq!(storage_key(Page::Home).as_str(), "tye_home-Home");
    assert_eq!(storage_key(Page::Example).as_str(), "tye_home-Example");
    assert_eq!(app_storage_key().as_str(), "tye_home");
    assert_eq!(layout_storage_key().as_str(), "tye_home-Layout");
}

#[test]
fn storage_keys_are_deterministic_and_distinct() {
    assert_eq!(storage_key(Page::Home), storage_key(Page::Home));
    assert_eq!(storage_key(Page::Example), storage_key(Page::Example));
    assert_ne!(storage_key(Page::Home), storage_key(Page::Example));
    assert_ne!(storage_key(Page::Home), app_storage_key());
    assert_ne!(storage_key(Page::Example), app_storage_key());
    assert_ne!(storage_key(Page::Home), layout_storage_key());
    assert_ne!(storage_key(Page::Example), layout_storage_key());
}

#[test]
fn example_default_value_is_pi_ish() {
    assert_eq!(f32::from_bits(EXAMPLE_VALUE_BITS), 3.1415926);
}

#[test]
fn load_from_empty_storage_gives_structural_defaults() {
    let store = PageStore::new();
    match Page::Example.load(&store) {
        PageData::Example(e) => {
            assert_eq!(e.label.as_str(), "Hello world!");
            assert_eq!(f32::from_bits(e.value_bits), 3.1415926);
        }
        PageData::Home => panic!("expected the example payload"),
    }
    assert!(matches!(Page::Home.load(&store), PageData::Home));
}

#[test]
fn switch_page_saves_before_loading() {
    let mut app = MyApp::default();
    let mut store = PageStore::new();
    app.page_data = edited_example("unsaved edit", EXAMPLE_VALUE_BITS);

    app.switch_page(Page::Home, &mut store);
    assert!(matches!(app.page_data, PageData::Home));
    assert_eq!(app.page(), Page::Home);

    app.switch_page(Page::Example, &mut store);
    match &app.page_data {
        PageData::Example(e) => assert_eq!(e.label.as_str(), "unsaved edit"),
        PageData::Home => panic!("the edited payload was discarded"),
    }
}

#[test]
fn switch_page_resets_the_transient_value() {
    let mut app = MyApp::default();
    let mut store = PageStore::new();
    app.page_data = edited_example("kept", 0);

    app.switch_page(Page::Home, &mut store);
    app.switch_page(Page::Example, &mut store);
    match &app.page_data {
        PageData::Example(e) => {
            assert_eq!(e.label.as_str(), "kept");
            assert_eq!(e.value_bits, EXAMPLE_VALUE_BITS);
        }
        PageData::Home => panic!("expected the example payload"),
    }
}

#[test]
fn switch_page_to_the_same_kind_keeps_the_persisted_payload() {
    let mut app = MyApp::default();
    let mut store = PageStore::new();
    app.page_data = edited_example("self switch", EXAMPLE_VALUE_BITS);

    app.switch_page(Page::Example, &mut store);
    match &app.page_data {
        PageData::Example(e) => assert_eq!(e.label.as_str(), "self switch"),
        PageData::Home => panic!("expected the example payload"),
    }
}

#[test]
fn reset_all_overwrites_every_kind_with_its_default() {
    let mut app = MyApp::default();
    let mut store = PageStore::new();

    app.page_data = edited_example("to be reset", EXAMPLE_VALUE_BITS);
    app.switch_page(Page::Example, &mut store);
    app.page_data = edited_example("still edited", EXAMPLE_VALUE_BITS);

    app.reset_all(&mut store);
    match &app.page_data {
        PageData::Example(e) => assert_eq!(e.label.as_str(), "Hello world!"),
        PageData::Home => panic!("the active kind should have been reloaded"),
    }
    match Page::Example.load(&store) {
        PageData::Example(e) => assert_eq!(e.label.as_str(), "Hello world!"),
        PageData::Home => panic!("expected the example payload"),
    }
    assert!(matches!(Page::Home.load(&store), PageData::Home));
}

#[test]
fn page_all_lists_every_kind_once() {
    let kinds = Page::all();
    assert_eq!(kinds.len(), 2);
    assert_eq!(kinds[0], Page::Home);
    assert_eq!(kinds[1], Page::Example);
}

#[test]
fn kinds_follow_the_active_variant() {
    let mut app = MyApp::default();
    assert_eq!(app.page(), Page::Home);
    assert_eq!(app.layout(), Layout::Desktop);
    app.page_data = edited_example("x", EXAMPLE_VALUE_BITS);
    assert_eq!(app.page(), Page::Example);
    app.layout = LayoutData::Mobile { tabs_open: true };
    assert_eq!(app.layout(), Layout::Mobile);
}

#[test]
fn toggle_layout_swaps_kinds() {
    let mut app = MyApp::default();
    app.toggle_layout();
    assert_eq!(app.layout, LayoutData::Mobile { tabs_open: false });
    app.toggle_layout();
    assert_eq!(app.layout, LayoutData::Desktop {});
    app.layout = LayoutData::Mobile { tabs_open: true };
    app.toggle_layout();
    assert_eq!(app.layout, LayoutData::Desktop {});
}

#[test]
fn reset_layout_follows_the_form_factor() {
    let mut app = MyApp::default();
    app.reset_layout(true);
    assert_eq!(app.layout, LayoutData::Mobile { tabs_open: false });
    app.reset_layout(false);
    assert_eq!(app.layout, LayoutData::Desktop {});
}

#[test]
fn toggle_debug_window_flips() {
    let mut app = MyApp::default();
    assert!(!app.debug_window);
    app.toggle_debug_window();
    assert!(app.debug_window);
    app.toggle_debug_window();
    assert!(!app.debug_window);
}

#[test]
fn new_without_storage_fails() {
    match MyApp::new(false, None, None, false, None) {
        Err(e) => {
            assert_eq!(e, InitError::StorageError);
            assert_eq!(e.message().as_str(), "Unable to access storage.");
        }
        Ok(_) => panic!("construction without storage must fail"),
    }
}

#[test]
fn new_without_stored_state_starts_from_defaults() {
    let app = MyApp::new(true, None, None, false, None).unwrap();
    assert!(matches!(app.page_data, PageData::Home));
    assert!(!app.debug_window);
    assert_eq!(app.layout, LayoutData::Desktop {});
    assert!(app.recent_logs().is_empty());
}

#[test]
fn new_takes_the_layout_from_the_form_factor() {
    let app = MyApp::new(true, None, None, true, None).unwrap();
    assert_eq!(app.layout, LayoutData::Mobile { tabs_open: false });
}

#[test]
fn new_prefers_the_stored_layout() {
    let stored_layout = Some(LayoutData::Desktop {});
    let app = MyApp::new(true, None, stored_layout, true, None).unwrap();
    assert_eq!(app.layout, LayoutData::Desktop {});
}

#[test]
fn new_restores_a_persisted_whole_state() {
    let mut persisted = MyApp::default();
    persisted.page_data = edited_example("restored", EXAMPLE_VALUE_BITS);
    persisted.debug_window = true;
    persisted.layout = LayoutData::Mobile { tabs_open: true };

    let app = MyApp::new(true, Some(persisted), None, false, None).unwrap();
    match &app.page_data {
        PageData::Example(e) => assert_eq!(e.label.as_str(), "restored"),
        PageData::Home => panic!("the stored page was dropped"),
    }
    assert!(app.debug_window);
    assert_eq!(app.layout, LayoutData::Mobile { tabs_open: true });
}
