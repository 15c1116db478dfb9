use chatgpt_webview_client::downloads::DownloadHistory;
use chatgpt_webview_client::pages::{
    download_interceptor_script, download_ipc_token, download_manager_html,
    download_notification_script, export_conversation_script, memory_optimization_payload,
    runtime_failed_script, runtime_ready_script_for_site, settings_button_script,
    shell_tab_sync_script, site_initial_url, startup_progress_script, top_shell_html, top_shell_url,
    waiting_page_html, waiting_page_url, StartupProgress,
};
use chatgpt_webview_client::site::{
    latency_url_for_site, releasable_sites_for_memory, should_spawn_initial_runtime_start, AiSite,
    ExportFormat, StartupStage,
};
use chatgpt_webview_client::{AppSettings, ProxyMode, CHATGPT_URL};

fn decoded_waiting_page(site: AiSite) -> String {
    let url = waiting_page_url(site);
    urlencoding::decode(
        url.strip_prefix("data:text/html;charset=utf-8,")
            .expect("waiting page should be a data URL"),
    )
    .expect("waiting page should decode")
    .into_owned()
}

#[test]
fn site_catalog_includes_all_top_tabs_in_order() {
    let keys = AiSite::all().iter().map(|site| site.key()).collect::<Vec<_>>();

    assert_eq!(keys, vec!["chatgpt", "gemini", "notebooklm", "aistudio"]);
}

#[test]
fn site_keys_find_their_sites() {
    for site in AiSite::all() {
        assert_eq!(AiSite::from_key(site.key()), Some(site));
    }
    assert_eq!(AiSite::from_key("bard"), None);
    assert_eq!(latency_url_for_site(AiSite::ChatGpt), "https://chatgpt.com/cdn-cgi/trace");
    assert_eq!(latency_url_for_site(AiSite::Gemini), "https://gemini.google.com");
}

#[test]
fn site_initial_url_waits_for_internal_proxy_before_ready() {
    let mut settings = AppSettings::default();
    settings.proxy.mode = ProxyMode::InternalClash;

    let url = site_initial_url(&settings, AiSite::Gemini, false);

    assert!(url.starts_with("data:text/html"));
    assert!(url.contains("Gemini"));
    assert_eq!(site_initial_url(&settings, AiSite::Gemini, true), "https://gemini.google.com");
}

#[test]
fn runtime_ready_script_targets_each_site() {
    let script = runtime_ready_script_for_site(AiSite::NotebookLm);

    assert!(script.contains("window.location.href = 'https://notebooklm.google.com';"));
    assert!(!script.contains("window.location.href = 'https://chatgpt.com';"));
}

#[test]
fn content_initialization_script_installs_client_side_download_fallback() {
    let script = download_interceptor_script("test-token");

    assert!(script.contains("__chatgptClientDownloadInterceptorInstalled"));
    assert!(script.contains("sendDownloadCommand('saveDownload', payload)"));
    assert!(script.contains("const downloadIpcToken = \"test-token\";"));
    assert!(script.contains("content_base64"));
    assert!(script.contains("getAttribute('download')"));
    assert!(script.contains("href.startsWith('blob:')"));
    assert!(script.contains("href.startsWith('data:')"));
    assert!(script.contains("window.open = function"));
}

#[test]
fn download_interceptor_supports_file_system_access_api_fallback() {
    let script = download_interceptor_script("test-token");

    assert!(script.contains("window.showSaveFilePicker"));
    assert!(script.contains("__aiClientNativeShowSaveFilePicker"));
    assert!(script.contains("createWritable"));
    assert!(script.contains("async close() { return flush(); }"));
    assert!(script.contains("navigator.msSaveBlob"));
}

#[test]
fn download_interceptor_quotes_the_token_as_json() {
    let script = download_interceptor_script("a\"b\\c\n");

    assert!(script.contains("const downloadIpcToken = \"a\\\"b\\\\c\\n\";"));
}

#[test]
fn top_shell_html_contains_four_model_tabs() {
    let html = top_shell_html(AiSite::ChatGpt);

    assert_eq!(html.matches("class=\"tab\"").count(), 4);
    assert!(html.contains("data-site=\"chatgpt\""));
    assert!(html.contains("data-site=\"gemini\""));
    assert!(html.contains("data-site=\"notebooklm\""));
    assert!(html.contains("data-site=\"aistudio\""));
}

#[test]
fn top_shell_html_marks_only_the_active_tab() {
    let html = top_shell_html(AiSite::Gemini);

    assert_eq!(html.matches("data-active=\"true\" data-started").count(), 1);
    assert!(html.contains("data-site=\"gemini\" data-active=\"true\" data-started=\"true\""));
    assert!(html.contains("<span class=\"tab-shortcut\">4</span>"));
}

#[test]
fn top_shell_html_moves_status_pills_to_toolbar() {
    let html = top_shell_html(AiSite::Gemini);

    assert!(html.contains("class=\"top-status\""));
    assert!(html.contains("已登录"));
    assert!(html.contains("代理可用"));
    assert!(html.contains("页面常驻"));
    assert!(!html.contains("page-head"));
    assert!(!html.contains("browser-chrome"));
}

#[test]
fn top_shell_html_posts_navigation_ipc_commands() {
    let html = top_shell_html(AiSite::ChatGpt);

    assert!(html.contains("switchSite"));
    assert!(html.contains("navBack"));
    assert!(html.contains("navForward"));
    assert!(html.contains("reloadActive"));
}

#[test]
fn top_shell_html_exposes_close_buttons_for_secondary_tabs() {
    let html = top_shell_html(AiSite::ChatGpt);

    assert_eq!(html.matches("class=\"tab-close\"").count(), 3);
    assert!(html.contains("data-action=\"closeSite\" data-site=\"gemini\""));
    assert!(html.contains("data-action=\"closeSite\" data-site=\"notebooklm\""));
    assert!(html.contains("data-action=\"closeSite\" data-site=\"aistudio\""));
    assert!(!html.contains("data-action=\"closeSite\" data-site=\"chatgpt\""));
}

#[test]
fn top_shell_html_exposes_memory_optimization_action() {
    let html = top_shell_html(AiSite::ChatGpt);

    assert!(html.contains("data-action=\"optimizeMemory\""));
    assert!(html.contains("title=\"清理内存\""));
    assert!(html.contains("__aiClientSyncTabs"));
}

#[test]
fn top_shell_html_exposes_download_toast_api() {
    let html = top_shell_html(AiSite::ChatGpt);

    assert!(html.contains("class=\"toast-region\""));
    assert!(html.contains("window.__aiClientNotifyDownload"));
    assert!(html.contains("detail.dataset.action = 'openDownloadPath';"));
    assert!(html.contains("sendCommand('openDownloadPath'"));
}

#[test]
fn top_shell_html_exposes_download_self_test_button() {
    let html = top_shell_html(AiSite::ChatGpt);

    assert!(!html.contains("data-action=\"testDownload\""));
    assert!(!html.contains("下载自测"));
}

#[test]
fn top_shell_download_manager_opens_native_window() {
    let html = top_shell_html(AiSite::ChatGpt);

    assert!(html.contains("data-action=\"openDownloadManager\""));
    assert!(html.contains("sendCommand('openDownloadManager')"));
    assert!(!html.contains("class=\"download-overlay\""));
    assert!(!html.contains("setDownloadManagerOpen"));
}

#[test]
fn top_shell_html_exposes_latency_status_and_timer() {
    let html = top_shell_html(AiSite::ChatGpt);

    assert!(html.contains("data-latency-label"));
    assert!(html.contains("延时 --"));
    assert!(html.contains("measureLatency"));
    assert!(html.contains("setInterval(measureActiveLatency, 60000)"));
}

#[test]
fn top_shell_html_does_not_probe_latency_during_first_second() {
    let html = top_shell_html(AiSite::ChatGpt);

    assert!(!html.contains("setTimeout(measureActiveLatency, 800)"));
    assert!(html.contains("setTimeout(measureActiveLatency, 5000)"));
}

#[test]
fn top_shell_html_latency_pill_has_stable_width() {
    let html = top_shell_html(AiSite::ChatGpt);

    assert!(html.contains("class=\"pill latency-pill\""));
    assert!(html.contains(".latency-pill {"));
    assert!(html.contains("min-width: 104px;"));
    assert!(html.contains("justify-content: center;"));
}

#[test]
fn top_shell_html_exposes_download_manager_panel() {
    let html = top_shell_html(AiSite::ChatGpt);

    assert!(html.contains("data-action=\"openDownloadManager\""));
    assert!(!html.contains("data-download-filter"));
    assert!(!html.contains("data-download-list"));
    assert!(!html.contains("data-action=\"testDownload\""));
}

#[test]
fn download_manager_html_wires_native_window_buttons() {
    let history = DownloadHistory::new(500);
    let html = download_manager_html(&history);

    assert!(html.contains("<title>下载管理</title>"));
    assert!(html.contains("data-download-filter"));
    assert!(html.contains("data-download-list"));
    assert!(html.contains("data-download-summary"));
    assert!(html.contains("data-action=\"openDownloadSettings\""));
    assert!(html.contains("data-action=\"clearCompletedDownloads\""));
    assert!(html.contains("data-action=\"closeDownloadManager\""));
    assert!(html.contains("data-action=\"openDownloadPath\""));
    assert!(html.contains("data-action=\"openDownloadFolder\""));
    assert!(html.contains("data-action=\"deleteDownloadRecord\""));
    assert!(html.contains("window.__aiClientSyncDownloads"));
    assert!(html.contains("sendCommand('closeDownloadManager')"));
    assert!(html.contains("window.__aiClientSyncDownloads({\"downloads\":[]});"));
}

#[test]
fn top_shell_html_exposes_conversation_export_buttons() {
    let html = top_shell_html(AiSite::ChatGpt);

    assert!(html.contains("data-action=\"exportMarkdown\""));
    assert!(html.contains("data-action=\"exportPdf\""));
    assert!(html.contains("exportConversation"));
    assert!(html.contains("title=\"导出 Markdown\""));
    assert!(html.contains("title=\"导出 PDF\""));
}

#[test]
fn top_shell_toast_is_visible_inside_fixed_toolbar_height() {
    let html = top_shell_html(AiSite::ChatGpt);

    assert!(html.contains(".toast-region { position: fixed; right: 12px; top: 8px;"));
    assert!(!html.contains("top: 60px"));
}

#[test]
fn export_conversation_script_posts_markdown_to_rust() {
    let script = export_conversation_script(AiSite::ChatGpt, ExportFormat::Markdown);

    assert!(script.contains("type: 'exportConversation'"));
    assert!(script.contains("const format = 'markdown';"));
    assert!(script.contains("extractConversationMarkdown"));
    assert!(script.contains("data-message-author-role"));
}

#[test]
fn export_conversation_script_quotes_site_title() {
    let script = export_conversation_script(AiSite::AiStudio, ExportFormat::Pdf);

    assert!(script.contains("const format = 'pdf';"));
    assert!(script.contains("const siteTitle = \"Google AI Studio\";"));
}

#[test]
fn download_notification_script_escapes_payload() {
    let script = download_notification_script("完成", Some(r#"C:\Users\tester\Downloads\a"b.txt"#), true);

    assert!(script.contains("window.__aiClientNotifyDownload"));
    assert!(script.contains(r#"C:\\Users\\tester\\Downloads\\a\"b.txt"#));
    assert_eq!(
        download_notification_script("失败", None, false),
        "window.__aiClientNotifyDownload && window.__aiClientNotifyDownload({\"path\":null,\"status\":\"失败\",\"success\":false});"
    );
}

#[test]
fn top_shell_loads_from_non_opaque_origin_for_ipc() {
    let url = top_shell_url();

    assert!(url.starts_with("aiclient://"));
    assert!(url.contains("?v=download-manager-native-v2"));
    assert!(!url.starts_with("data:"));
    assert_ne!(url, "about:blank");
}

#[test]
fn top_shell_keeps_fixed_height_on_narrow_windows() {
    let html = top_shell_html(AiSite::ChatGpt);

    assert!(!html.contains("height: auto"));
    assert!(!html.contains("flex-wrap: wrap"));
    assert!(html.contains(".top-status, .toolbar-divider { display: none; }"));
}

#[test]
fn settings_panel_is_centered_with_footer_actions() {
    let script = settings_button_script(r#"{"proxy":{}}"#);

    assert!(script.contains("left: 50%; top: 50%;"));
    assert!(script.contains("transform: translate(-50%, -50%);"));
    assert!(script.contains("class=\"cgpt-client-panel-footer\""));
    assert!(script.contains("data-action=\"close-panel\""));
    assert!(script.contains(">保存设置</button>"));
}

#[test]
fn settings_script_keeps_proxy_controls_without_old_site_switcher() {
    let script = settings_button_script(r#"{"proxy":{}}"#);

    assert!(!script.contains("chatgpt-client-status-chip"));
    assert!(!script.contains("data-view=\"quick_nodes\""));
    assert!(!script.contains("cgpt-client-site-switcher"));
    assert!(!script.contains("data-action=\"switch-site\""));
    assert!(script.contains("cgpt-client-node-grid"));
    assert!(script.contains("data-action=\"test-fastest\""));
    assert!(script.contains("data-action=\"cancel-tests\""));
    assert!(script.contains("data-action=\"check-chatgpt\""));
    assert!(script.contains("data-action=\"repair-proxy\""));
    assert!(script.contains("repairProxy"));
    assert!(script.contains("runIncrementalDelayTests"));
    assert!(script.contains("groups.some(group => group.name === savedGroup)"));
}

#[test]
fn settings_script_exposes_memory_optimization_action() {
    let script = settings_button_script(r#"{"proxy":{}}"#);

    assert!(script.contains("data-action=\"optimize-memory\""));
    assert!(script.contains("optimizeMemory"));
    assert!(script.contains("后台页面"));
}

#[test]
fn settings_script_exposes_download_path_controls() {
    let script = settings_button_script(r#"{"proxy":{},"downloads":{}}"#);

    assert!(script.contains("下载内容保存位置"));
    assert!(script.contains("使用上次下载目录"));
    assert!(script.contains("data-field=\"download_save_mode\""));
    assert!(script.contains("data-field=\"download_fixed_dir\""));
    assert!(script.contains("data-field=\"download_max_records\""));
    assert!(script.contains("data-action=\"choose-download-dir\""));
    assert!(script.contains("window.__chatgptClientUpdateDownloadSettings"));
}

#[test]
fn settings_script_intercepts_blob_and_data_download_links() {
    let script = download_interceptor_script("test-token");

    assert!(script.contains("__chatgptClientDownloadInterceptorInstalled"));
    assert!(script.contains("a[href]"));
    assert!(script.contains("href.startsWith('blob:')"));
    assert!(script.contains("href.startsWith('data:')"));
    assert!(script.contains("saveDownload"));
    assert!(script.contains("content_base64"));
}

#[test]
fn download_interceptor_routes_regular_http_links_to_native_download() {
    let script = download_interceptor_script("test-token");

    assert!(script.contains("sendDownloadCommand('downloadUrl', Object.assign({}, payload"));
    assert!(script.contains("token: downloadIpcToken"));
    assert!(script.contains("fetch(url, { credentials: 'include' })"));
    assert!(script.contains("return sendDownloadUrl({ url, filename })"));
    assert!(script.contains("url.startsWith('http://')"));
    assert!(script.contains("url.startsWith('https://')"));
}

#[test]
fn download_interceptor_handles_programmatic_anchor_clicks() {
    let script = download_interceptor_script("test-token");

    assert!(script.contains("HTMLAnchorElement.prototype.click"));
    assert!(script.contains("nativeAnchorClick"));
    assert!(script.contains("handleDownloadAnchor"));
    assert!(script.contains("return nativeAnchorClick.apply(this, arguments);"));
}

#[test]
fn settings_script_uses_separate_fields_for_new_subscription() {
    let script = settings_button_script(r#"{"proxy":{}}"#);

    assert!(script.contains("data-field=\"new_subscription_name\""));
    assert!(script.contains("data-field=\"new_subscription_url\""));
    assert!(script.contains("fields.new_subscription_url.value.trim()"));
    assert!(script.contains("fields.new_subscription_url.value = '';"));
    assert!(script.contains(">添加为新订阅</button>"));
}

#[test]
fn settings_script_embeds_the_settings_json() {
    let script = settings_button_script(r#"{"proxy":{"mode":"system"}}"#);

    assert!(script.contains("const initialSettings = {\"proxy\":{\"mode\":\"system\"}};"));
}

#[test]
fn memory_optimizer_releases_only_background_secondary_sites() {
    let loaded = vec![AiSite::ChatGpt, AiSite::Gemini, AiSite::NotebookLm, AiSite::AiStudio];

    assert_eq!(
        releasable_sites_for_memory(AiSite::ChatGpt, &loaded),
        vec![AiSite::Gemini, AiSite::NotebookLm, AiSite::AiStudio]
    );
    assert_eq!(
        releasable_sites_for_memory(AiSite::Gemini, &loaded),
        vec![AiSite::NotebookLm, AiSite::AiStudio]
    );
}

#[test]
fn memory_optimization_payload_lists_loaded_pages() {
    let payload = memory_optimization_payload(2, AiSite::Gemini, vec![AiSite::ChatGpt, AiSite::Gemini]);

    assert_eq!(
        payload,
        "{\"active_site\":\"gemini\",\"loaded_pages\":[\"chatgpt\",\"gemini\"],\"released_pages\":2}"
    );
}

#[test]
fn shell_tab_sync_script_passes_active_and_loaded_sites() {
    let script = shell_tab_sync_script(AiSite::NotebookLm, &vec![AiSite::ChatGpt, AiSite::NotebookLm]);

    assert_eq!(
        script,
        "window.__aiClientSyncTabs && window.__aiClientSyncTabs(\"notebooklm\", [\"chatgpt\",\"notebooklm\"]);"
    );
}

#[test]
fn settings_script_blocks_ipc_from_opaque_waiting_page() {
    let script = settings_button_script(r#"{"proxy":{}}"#);

    assert!(script.contains("function canUseNativeIpc()"));
    assert!(script.contains("window.location.protocol !== 'data:'"));
    assert!(script.contains("window.location.protocol !== 'about:'"));
    assert!(script.contains("当前启动页暂不能读取设置"));
}

#[test]
fn runtime_ready_script_navigates_waiting_page_without_ipc() {
    let script = runtime_ready_script_for_site(AiSite::ChatGpt);

    assert!(script.contains("const isWaitingPage"));
    assert!(script.contains("if (isWaitingPage)"));
    assert!(script.contains("window.location.href = 'https://chatgpt.com';"));
    assert!(script.contains("} else {"));
    assert!(script.contains("window.__chatgptClientRuntimeReady"));
}

#[test]
fn runtime_failed_script_replaces_waiting_page_with_error() {
    let script = runtime_failed_script("missing mihomo");

    assert!(script.contains("内置代理启动失败"));
    assert!(script.contains("missing mihomo"));
    assert!(script.contains("resources/clash/mihomo"));
    assert!(script.contains("document.body.innerHTML = '';"));
}

#[test]
fn startup_stage_has_user_facing_labels() {
    assert_eq!(StartupStage::all().len(), 10);
    assert_eq!(StartupStage::LoadSubscription.key(), "load_subscription");
    assert_eq!(StartupStage::LoadSubscription.label(), "读取或更新订阅");
    assert_eq!(StartupStage::WaitController.label(), "等待控制器就绪");
    assert_eq!(StartupStage::Failed.key(), "failed");
}

#[test]
fn startup_progress_script_updates_waiting_page() {
    let script = startup_progress_script(&StartupProgress {
        stage: StartupStage::StartMihomo,
        elapsed_secs: 8,
        message: Some("starting".to_string()),
    });

    assert!(script.contains("data-startup-stage"));
    assert!(script.contains("data-startup-elapsed"));
    assert!(script.contains("启动 mihomo"));
    assert!(script.contains("starting"));
    assert!(script.contains(
        "const payload = {\"elapsed_secs\":8,\"label\":\"启动 mihomo\",\"message\":\"starting\",\"stage\":\"start_mihomo\"};"
    ));
}

#[test]
fn initial_runtime_start_spawns_once_only_for_internal_clash() {
    assert!(should_spawn_initial_runtime_start(ProxyMode::InternalClash, false));
    assert!(!should_spawn_initial_runtime_start(ProxyMode::InternalClash, true));
    assert!(!should_spawn_initial_runtime_start(ProxyMode::System, false));
}

#[test]
fn waiting_page_keeps_elapsed_timer_without_native_events() {
    let decoded = decoded_waiting_page(AiSite::ChatGpt);

    assert!(decoded.contains("const startupStartedAt = Date.now();"));
    assert!(decoded.contains("setInterval(() => {"));
    assert!(decoded.contains("data-startup-elapsed"));
}

#[test]
fn waiting_page_bootstraps_initial_startup_stage() {
    let decoded = decoded_waiting_page(AiSite::ChatGpt);

    assert!(decoded.contains("data-startup-stage>读取配置</strong>"));
    assert!(decoded.contains("data-startup-elapsed>0</span>s"));
}

#[test]
fn waiting_page_lists_every_stage_key() {
    let html = waiting_page_html(AiSite::Gemini);

    assert!(html.contains(
        "data-startup-stages=\"load_settings,resolve_ports,load_subscription,build_mihomo_config,start_mihomo,wait_controller,restore_node,check_connectivity,ready,failed\""
    ));
    assert_eq!(decoded_waiting_page(AiSite::Gemini), html);
}

#[test]
fn internal_clash_starts_with_local_waiting_page() {
    let mut settings = AppSettings::default();
    settings.proxy.mode = ProxyMode::InternalClash;

    let url = site_initial_url(&settings, AiSite::ChatGpt, false);

    assert!(url.starts_with("data:text/html"));
    assert!(url.contains("%E6%AD%A3%E5%9C%A8%E5%90%AF%E5%8A%A8%E5%86%85%E7%BD%AE%E4%BB%A3%E7%90%86"));
    assert!(url.contains("data-startup-stage"));
    assert!(url.contains("%E8%B7%B3%E8%BF%87%E4%BB%A3%E7%90%86%E6%89%93%E5%BC%80"));
    assert!(url.contains("https%3A%2F%2Fchatgpt.com"));
}

#[test]
fn non_internal_clash_starts_at_chatgpt() {
    let settings = AppSettings::default();

    assert_eq!(site_initial_url(&settings, AiSite::ChatGpt, false), CHATGPT_URL);
}

#[test]
fn download_ipc_token_names_site_time_and_sequence() {
    assert_eq!(download_ipc_token(AiSite::Gemini, 255, 16), "gemini-ff-10");
    assert_eq!(download_ipc_token(AiSite::ChatGpt, 0, 1), "chatgpt-0-1");
}
