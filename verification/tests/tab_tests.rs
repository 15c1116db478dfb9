use chatgpt_webview_client::site::{close_plan, site_is_loaded, switch_plan, AiSite, TabClose, TabSwitch};

#[test]
fn switching_to_an_unloaded_site_builds_it_and_hides_the_active_one() {
    let loaded = vec![AiSite::ChatGpt];
    assert_eq!(
        switch_plan(AiSite::ChatGpt, &loaded, AiSite::Gemini),
        TabSwitch { build: true, hide: Some(AiSite::ChatGpt), show: true, active: AiSite::Gemini }
    );
}

#[test]
fn switching_to_the_active_site_changes_nothing() {
    let loaded = vec![AiSite::ChatGpt, AiSite::Gemini];
    assert_eq!(
        switch_plan(AiSite::Gemini, &loaded, AiSite::Gemini),
        TabSwitch { build: false, hide: None, show: false, active: AiSite::Gemini }
    );
}

#[test]
fn chatgpt_tab_is_never_closed() {
    let loaded = vec![AiSite::ChatGpt, AiSite::Gemini];
    assert_eq!(
        close_plan(AiSite::ChatGpt, &loaded, AiSite::ChatGpt),
        TabClose { close: false, removed: false, show_chatgpt: false, active: AiSite::ChatGpt }
    );
}

#[test]
fn closing_the_active_secondary_site_falls_back_to_chatgpt() {
    let loaded = vec![AiSite::ChatGpt, AiSite::NotebookLm];
    assert_eq!(
        close_plan(AiSite::NotebookLm, &loaded, AiSite::NotebookLm),
        TabClose { close: true, removed: true, show_chatgpt: true, active: AiSite::ChatGpt }
    );
}

#[test]
fn closing_a_background_or_unloaded_site_keeps_the_active_one() {
    let loaded = vec![AiSite::ChatGpt, AiSite::AiStudio];
    assert_eq!(
        close_plan(AiSite::ChatGpt, &loaded, AiSite::AiStudio),
        TabClose { close: true, removed: true, show_chatgpt: false, active: AiSite::ChatGpt }
    );
    assert_eq!(
        close_plan(AiSite::ChatGpt, &loaded, AiSite::Gemini),
        TabClose { close: true, removed: false, show_chatgpt: false, active: AiSite::ChatGpt }
    );
    assert!(site_is_loaded(&loaded, AiSite::AiStudio));
    assert!(!site_is_loaded(&loaded, AiSite::Gemini));
}
