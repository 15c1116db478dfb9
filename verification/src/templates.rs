//! Page and script templates: the fixed text around the values that the
//! functions in `pages` insert.
use vstd::prelude::*;
use crate::text::push_str;

verus! {

/// Settings panel script, part 0.
pub const SETTINGS_SCRIPT_0: &'static str = r##"
(() => {
  const initialSettings = "##;

/// Settings panel script, part 1, piece A.
pub const SETTINGS_SCRIPT_1_A: &'static str = r##";
  const pending = new Map();
  const delays = new Map();
  let requestSeq = 0;
  let currentData = null;
  let delayRunToken = 0;
  let runtimeReadyPending = false;

  window.__chatgptClientReceive = (message) => {
    const entry = pending.get(message.id);
    if (!entry) return;
    pending.delete(message.id);
    if (message.ok) entry.resolve(message.data);
    else entry.reject(new Error(message.error || '操作失败'));
  };

  window.__chatgptClientRuntimeReady = () => { runtimeReadyPending = true; };

  function canUseNativeIpc() {
    return window.location.protocol !== 'data:'
      && window.location.protocol !== 'about:'
      && window.ipc
      && typeof window.ipc.postMessage === 'function';
  }

  function sendCommand(type, payload = {}) {
    if (!canUseNativeIpc()) {
      return Promise.reject(new Error('当前启动页暂不能读取设置，代理就绪后会自动打开 ChatGPT'));
    }
    const id = String(++requestSeq);
    return new Promise((resolve, reject) => {
      pending.set(id, { resolve, reject });
      window.ipc.postMessage(JSON.stringify({ id, type, payload }));
      setTimeout(() => {
        if (pending.delete(id)) reject(new Error('操作超时'));
      }, 30000);
    });
  }

  function notifyDownload(status, path, success = true) {
    if (window.parent && typeof window.parent.__aiClientNotifyDownload === 'function') {
      window.parent.__aiClientNotifyDownload({ status, path, success });
    }
  }

  async function readDownloadUrl(url) {
    const response = await fetch(url);
    if (!response.ok && !url.startsWith('blob:') && !url.startsWith('data:')) {
      throw new Error(`下载请求失败：${response.status}`);
    }
    const blob = await response.blob();
    const buffer = await blob.arrayBuffer();
    const bytes = new Uint8Array(buffer);
    let binary = '';
    const chunkSize = 0x8000;
    for (let offset = 0; offset < bytes.length; offset += chunkSize) {
      binary += String.fromCharCode.apply(null, bytes.subarray(offset, offset + chunkSize));
    }
    return btoa(binary);
  }

  function installDownloadFallback() {
    document.addEventListener('click', async event => {
      const link = event.target && event.target.closest ? event.target.closest('a[download]') : null;
      if (!link || !link.href) return;
      const href = link.href;
      if (!href.startsWith('blob:') && !href.startsWith('data:')) return;
      if (!canUseNativeIpc()) return;
      event.preventDefault();
      event.stopPropagation();
      const filename = link.getAttribute('download') || 'download';
      try {
        notifyDownload('下载已开始', filename, true);
        const content_base64 = await readDownloadUrl(href);
        const result = await sendCommand('saveDownload', { filename, content_base64 });
        notifyDownload('下载完成', result.path, true);
      } catch (error) {
        notifyDownload(error.message || '下载失败', filename, false);
      }
    }, true);
  }

  function installSettingsButton() {
    if (document.getElementById('chatgpt-client-settings-button')) return;
    if (!document.body) return;

    const style = document.createElement('style');
    style.id = 'chatgpt-client-settings-style';
    style.textContent = `
      #chatgpt-client-settings-button {
        position: fixed; right: 20px; bottom: 92px; z-index: 2147483647;
        width: 40px; height: 40px; border: 1px solid rgba(0,0,0,.14);
        border-radius: 8px; background: rgba(255,255,255,.96); color: #111;
        font: 14px/1 system-ui, -apple-system, BlinkMacSystemFont, "Segoe UI", sans-serif;
        box-shadow: 0 8px 24px rgba(0,0,0,.16); cursor: pointer;
      }
      #chatgpt-client-settings-panel {
        position: fixed; left: 50%; top: 50%; right: auto; bottom: auto; z-index: 2147483647;
        transform: translate(-50%, -50%);
        width: min(620px, calc(100vw - 32px)); max-height: min(780px, calc(100vh - 32px));
        overflow: hidden; border: 1px solid rgba(0,0,0,.14); border-radius: 8px;
        background: #fff; color: #111; box-shadow: 0 18px 52px rgba(0,0,0,.24);
        padding: 0; font: 13px/1.42 system-ui, -apple-system, BlinkMacSystemFont, "Segoe UI", sans-serif;
        display: flex; flex-direction: column;
      }
      #chatgpt-client-settings-panel[hidden] { display: none; }
      .cgpt-client-panel-head {
        display: flex; align-items: center; justify-content: space-between; gap: 12px;
        padding: 14px 14px 10px; border-bottom: 1px solid #ececec; flex: 0 0 auto;
      }
      .cgpt-client-panel-body { overflow: auto; padding: 12px 14px; flex: 1 1 auto; }
      .cgpt-client-panel-footer {
        display: flex; align-items: center; justify-content: space-between; gap: 12px;
        padding: 10px 14px 14px; border-top: 1px solid #ececec; background: #fff; flex: 0 0 auto;
      }
      #chatgpt-client-settings-panel h2 { margin: 0; font-size: 15px; font-weight: 650; }
      #chatgpt-client-settings-panel h3 { margin: 14px 0 8px; font-size: 13px; font-weight: 650; }
      #chatgpt-client-settings-panel label { display: grid; gap: 5px; margin: 8px 0; color: #333; }
      #chatgpt-client-settings-panel input, #chatgpt-client-settings-panel select {
        width: 100%; min-height: 32px; box-sizing: border-box; border: 1px solid #c9c9c9;
        border-radius: 6px; padding: 5px 8px; color: #111; background: #fff;
      }
      .cgpt-client-row { display: flex; align-items: center; gap: 8px; flex-wrap: wrap; }
      .cgpt-client-grid { display: grid; grid-template-columns: 1fr 1fr; gap: 8px; }
      .cgpt-client-radio-row { display: flex; align-items: center; gap: 18px; flex-wrap: wrap; margin: 8px 0; }
      .cgpt-client-radio-label { display: inline-flex !important; align-items: center; gap: 7px; margin: 0 !important; }
      .cgpt-client-radio-label input { width: auto !important; min-height: auto !important; }
      .cgpt-client-path-row { display: grid; grid-template-columns: minmax(0, 1fr) auto; gap: 8px; align-items: end; }
      .cgpt-client-path-row label { margin: 0 !important; }
"##;

/// Settings panel script, part 1, piece B.
pub const SETTINGS_SCRIPT_1_B: &'static str = r##"      .cgpt-client-download-hint { margin: 5px 0 8px; color: #666; font-size: 12px; word-break: break-all; }
      .cgpt-client-download-tools { display: flex; align-items: flex-end; justify-content: flex-end; gap: 8px; margin: 8px 0; }
      .cgpt-client-node-grid {
        display: grid; grid-template-columns: repeat(auto-fit, minmax(210px, 1fr)); gap: 8px; margin-top: 8px;
      }
      .cgpt-client-node-card {
        display: grid; gap: 6px; min-height: 92px; border: 1px solid #e1e1e1; border-radius: 8px;
        background: #fff; color: #111; padding: 9px; text-align: left;
      }
      .cgpt-client-node-card[data-current="true"] { border-color: #1a73e8; background: #eef5ff; }
      .cgpt-client-node-main { display: flex; align-items: flex-start; justify-content: space-between; gap: 8px; }
      .cgpt-client-node-name { white-space: normal; word-break: break-word; font-weight: 650; line-height: 1.25; }
      .cgpt-client-node-meta { color: #666; font-size: 12px; }
      .cgpt-client-node-actions { display: flex; align-items: center; justify-content: flex-end; gap: 6px; }
      .cgpt-client-node-delay { flex: 0 0 auto; font-weight: 650; }
      .cgpt-client-node-delay.good { color: #087a2e; }
      .cgpt-client-node-delay.warn { color: #9a6500; }
      .cgpt-client-node-delay.bad { color: #b42318; }
      .cgpt-client-node-empty {
        border: 1px solid #ececec; border-radius: 8px; background: #fafafa; padding: 14px; color: #555;
      }
      .cgpt-client-actions { display: flex; align-items: center; justify-content: flex-end; gap: 8px; margin-top: 10px; }
      .cgpt-client-btn {
        min-height: 32px; border: 1px solid #c9c9c9; border-radius: 6px; padding: 0 10px;
        background: #f7f7f7; color: #111; cursor: pointer;
      }
      .cgpt-client-icon-btn {
        width: 30px; height: 30px; border: 1px solid #d4d4d4; border-radius: 6px;
        background: #fff; color: #111; cursor: pointer; font-size: 18px; line-height: 1;
      }
      .cgpt-client-btn[data-primary="true"] { border-color: #111; background: #111; color: #fff; }
      .cgpt-client-btn:disabled { opacity: .55; cursor: default; }
      #chatgpt-client-settings-status { min-height: 18px; color: #555; font-size: 12px; flex: 1 1 auto; }
      .cgpt-client-pill { display: inline-flex; align-items: center; min-height: 24px; border: 1px solid #ddd; border-radius: 999px; padding: 0 8px; background: #fafafa; }
      .cgpt-client-delay.good { color: #087a2e; }
      .cgpt-client-delay.warn { color: #9a6500; }
      .cgpt-client-delay.bad { color: #b42318; }
      .cgpt-client-node-btn[data-current="true"] { border-color: #111; background: #111; color: #fff; }
      #chatgpt-client-log {
        margin-top: 8px; max-height: 130px; overflow: auto; white-space: pre-wrap; word-break: break-word;
        border: 1px solid #e1e1e1; border-radius: 6px; background: #fafafa; padding: 8px; color: #333; font-size: 12px;
      }
    `;
    document.documentElement.appendChild(style);

    const button = document.createElement('button');
    button.id = 'chatgpt-client-settings-button';
    button.type = 'button';
    button.title = '设置';
    button.setAttribute('aria-label', '设置');
    button.textContent = '设';

    const panel = document.createElement('section');
    panel.id = 'chatgpt-client-settings-panel';
    panel.hidden = true;
    panel.innerHTML = `
      <div class="cgpt-client-panel-head">
        <h2>快捷设置</h2>
        <button class="cgpt-client-icon-btn" type="button" data-action="close-panel" title="关闭设置" aria-label="关闭设置">×</button>
      </div>
      <div class="cgpt-client-panel-body">
        <div class="cgpt-client-row">
          <span class="cgpt-client-pill" data-view="runtime">状态：读取中</span>
          <span class="cgpt-client-pill" data-view="current">节点：未选择</span>
        </div>

        <h3>订阅与模式</h3>
        <label>代理模式
          <select data-field="mode">
            <option value="system">系统代理</option>
            <option value="direct">直连</option>
            <option value="internal_clash">内置 Clash</option>
          </select>
        </label>
        <label>当前订阅
          <select data-field="subscription_select"></select>
        </label>
        <div class="cgpt-client-grid">
          <label>当前订阅名称
            <input data-field="subscription_name" type="text" placeholder="机场 A" />
          </label>
          <label>当前订阅链接
            <input data-field="subscription_url" type="url" placeholder="https://..." />
          </label>
        </div>
        <div class="cgpt-client-actions">
          <button class="cgpt-client-btn" type="button" data-action="update-subscription">更新当前</button>
          <button class="cgpt-client-btn" type="button" data-action="delete-subscription">删除当前</button>
        </div>
        <div class="cgpt-client-grid">
          <label>新增订阅名称
            <input data-field="new_subscription_name" type="text" placeholder="机场 B" />
          </label>
          <label>新增订阅链接
            <input data-field="new_subscription_url" type="url" placeholder="https://..." />
          </label>
        </div>
        <div class="cgpt-client-actions">
          <button class="cgpt-client-btn" type="button" data-action="add-subscription">添加为新订阅</button>
        </div>
        <div class="cgpt-client-grid">
          <label>自动更新订阅
            <select data-field="auto_update_subscription">
              <option value="true">开启</option>
              <option value="false">关闭</option>
            </select>
          </label>
          <label>策略组
            <input data-field="selected_group" type="text" placeholder="PROXY" />
          </label>
        </div>
        <label>节点
          <input data-field="selected_proxy" type="text" placeholder="AUTO" />
        </label>
        <div class="cgpt-client-grid">
          <label>代理端口
            <input data-field="mixed_port" type="number" min="1024" max="65535" />
          </label>
          <label>控制端口
"##;

/// Settings panel script, part 1, piece C.
pub const SETTINGS_SCRIPT_1_C: &'static str = r##"            <input data-field="controller_port" type="number" min="1024" max="65535" />
          </label>
        </div>
        <div class="cgpt-client-actions">
          <button class="cgpt-client-btn" type="button" data-action="refresh-subscription">刷新订阅</button>
        </div>

        <h3 data-section="downloads">下载设置</h3>
        <div class="cgpt-client-radio-row" aria-label="下载内容保存位置">
          <label class="cgpt-client-radio-label">
            <input data-field="download_save_mode" type="radio" name="download-save-mode" value="last_dir" />
            使用上次下载目录
          </label>
          <label class="cgpt-client-radio-label">
            <input data-field="download_save_mode" type="radio" name="download-save-mode" value="fixed" />
            指定目录
          </label>
        </div>
        <div class="cgpt-client-path-row">
          <label>下载内容保存位置
            <input data-field="download_fixed_dir" type="text" placeholder="data/Downloads" />
          </label>
          <button class="cgpt-client-btn" type="button" data-action="choose-download-dir">更改...</button>
        </div>
        <div class="cgpt-client-download-hint">上次下载目录：<span data-view="download_last_dir">暂无</span></div>
        <div class="cgpt-client-grid">
          <label>下载记录保留
            <input data-field="download_max_records" type="number" min="50" max="5000" step="50" />
          </label>
          <div class="cgpt-client-download-tools">
            <button class="cgpt-client-btn" type="button" data-action="reset-download-dir">恢复默认目录</button>
          </div>
        </div>

        <h3>节点选择</h3>
        <div class="cgpt-client-row">
          <select data-field="group_select"></select>
          <button class="cgpt-client-btn" type="button" data-action="reload">刷新列表</button>
          <button class="cgpt-client-btn" type="button" data-action="test-all">测速全部</button>
          <button class="cgpt-client-btn" type="button" data-action="test-fastest">最快节点</button>
          <button class="cgpt-client-btn" type="button" data-action="cancel-tests">停止测速</button>
          <button class="cgpt-client-btn" type="button" data-action="check-chatgpt">检测 ChatGPT</button>
          <button class="cgpt-client-btn" type="button" data-action="repair-proxy">一键修复</button>
          <button class="cgpt-client-btn" type="button" data-action="restart-runtime">重启代理</button>
          <button class="cgpt-client-btn" type="button" data-action="optimize-memory">清理内存</button>
        </div>
        <div class="cgpt-client-node-grid" data-view="nodes">
          <div class="cgpt-client-node-empty">暂无节点数据</div>
        </div>

        <h3>日志</h3>
        <div class="cgpt-client-actions">
          <button class="cgpt-client-btn" type="button" data-action="logs">刷新日志</button>
        </div>
        <pre id="chatgpt-client-log">暂无日志</pre>
      </div>
      <div class="cgpt-client-panel-footer">
        <div id="chatgpt-client-settings-status"></div>
        <div class="cgpt-client-actions">
          <button class="cgpt-client-btn" type="button" data-action="close-panel">关闭设置</button>
          <button class="cgpt-client-btn" type="button" data-primary="true" data-action="save">保存设置</button>
        </div>
      </div>
    `;

    document.body.append(button, panel);

    const fields = {
      mode: panel.querySelector('[data-field="mode"]'),
      subscription_select: panel.querySelector('[data-field="subscription_select"]'),
      subscription_name: panel.querySelector('[data-field="subscription_name"]'),
      subscription_url: panel.querySelector('[data-field="subscription_url"]'),
      new_subscription_name: panel.querySelector('[data-field="new_subscription_name"]'),
      new_subscription_url: panel.querySelector('[data-field="new_subscription_url"]'),
      auto_update_subscription: panel.querySelector('[data-field="auto_update_subscription"]'),
      selected_group: panel.querySelector('[data-field="selected_group"]'),
      selected_proxy: panel.querySelector('[data-field="selected_proxy"]'),
      mixed_port: panel.querySelector('[data-field="mixed_port"]'),
      controller_port: panel.querySelector('[data-field="controller_port"]'),
      group_select: panel.querySelector('[data-field="group_select"]'),
      download_save_modes: [...panel.querySelectorAll('[data-field="download_save_mode"]')],
      download_fixed_dir: panel.querySelector('[data-field="download_fixed_dir"]'),
      download_max_records: panel.querySelector('[data-field="download_max_records"]'),
    };
    const views = {
      runtime: panel.querySelector('[data-view="runtime"]'),
      current: panel.querySelector('[data-view="current"]'),
      nodes: panel.querySelector('[data-view="nodes"]'),
      log: panel.querySelector('#chatgpt-client-log'),
      status: panel.querySelector('#chatgpt-client-settings-status'),
      downloadLastDir: panel.querySelector('[data-view="download_last_dir"]'),
    };
    let subscriptions = [];
    let activeSubscriptionId = '';
    let downloadSettings = normalizeDownloadSettings(initialSettings.downloads || {});

    function setStatus(text) { views.status.textContent = text || ''; }
    function normalizeDownloadSettings(downloads = {}) {
      const maxRecords = Number(downloads.max_records ?? 500);
      return {
        save_mode: downloads.save_mode === 'last_dir' ? 'last_dir' : 'fixed',
        fixed_dir: String(downloads.fixed_dir || 'data/Downloads'),
        last_dir: String(downloads.last_dir || ''),
        ask_each_time: Boolean(downloads.ask_each_time),
        max_records: Number.isFinite(maxRecords) ? Math.min(5000, Math.max(50, Math.round(maxRecords))) : 500,
      };
    }
    function selectedDownloadSaveMode() {
      return fields.download_save_modes.find(input => input.checked)?.value || downloadSettings.save_mode || 'fixed';
    }
    function syncDownloadFields() {
      const mode = downloadSettings.save_mode === 'last_dir' ? 'last_dir' : 'fixed';
"##;

/// Settings panel script, part 1, piece D.
pub const SETTINGS_SCRIPT_1_D: &'static str = r##"      fields.download_save_modes.forEach(input => { input.checked = input.value === mode; });
      fields.download_fixed_dir.value = downloadSettings.fixed_dir || 'data/Downloads';
      fields.download_fixed_dir.disabled = mode === 'last_dir';
      fields.download_max_records.value = String(downloadSettings.max_records || 500);
      views.downloadLastDir.textContent = downloadSettings.last_dir || '暂无';
      const chooseButton = panel.querySelector('[data-action="choose-download-dir"]');
      if (chooseButton) chooseButton.disabled = mode === 'last_dir';
    }
    function setDownloadSettings(downloads) {
      downloadSettings = normalizeDownloadSettings(downloads || {});
      syncDownloadFields();
    }
    function readDownloadSettings() {
      const maxRecords = Number(fields.download_max_records.value || downloadSettings.max_records || 500);
      downloadSettings = normalizeDownloadSettings({
        ...downloadSettings,
        save_mode: selectedDownloadSaveMode(),
        fixed_dir: fields.download_fixed_dir.value.trim() || 'data/Downloads',
        max_records: maxRecords,
      });
      return { ...downloadSettings };
    }
    function setSettings(settings) {
      fields.mode.value = settings.proxy.mode || 'system';
      subscriptions = normalizeSubscriptions(settings.proxy);
      activeSubscriptionId = settings.proxy.active_subscription_id || subscriptions[0]?.id || '';
      renderSubscriptions();
      fields.auto_update_subscription.value = String(settings.proxy.auto_update_subscription ?? true);
      fields.selected_group.value = settings.proxy.selected_group || '';
      fields.selected_proxy.value = settings.proxy.selected_proxy || '';
      fields.mixed_port.value = settings.proxy.mixed_port || 17898;
      fields.controller_port.value = settings.proxy.controller_port || 17899;
      setDownloadSettings(settings.downloads || initialSettings.downloads || {});
    }
    function readSettings() {
      syncSubscriptionEditor();
      const active = subscriptions.find(item => item.id === activeSubscriptionId);
      return {
        proxy: {
          mode: fields.mode.value,
          subscription_url: active?.url || fields.subscription_url.value.trim(),
          active_subscription_id: activeSubscriptionId,
          subscriptions,
          auto_update_subscription: fields.auto_update_subscription.value === 'true',
          selected_group: fields.selected_group.value.trim(),
          selected_proxy: fields.selected_proxy.value.trim(),
          mixed_port: Number(fields.mixed_port.value || 17898),
          controller_port: Number(fields.controller_port.value || 17899),
        },
        downloads: readDownloadSettings(),
      };
    }
    window.__chatgptClientUpdateDownloadSettings = (updates = {}) => {
      setDownloadSettings({ ...downloadSettings, ...updates });
    };
    window.__chatgptClientOpenSettings = (section) => {
      panel.hidden = false;
      if (section === 'downloads') {
        panel.querySelector('[data-section="downloads"]')?.scrollIntoView({ block: 'start' });
        fields.download_fixed_dir?.focus();
      }
    };
    function normalizeSubscriptions(proxy) {
      const list = Array.isArray(proxy.subscriptions) ? proxy.subscriptions : [];
      const normalized = list
        .filter(item => item && String(item.url || '').trim())
        .map(item => ({
          id: item.id || makeSubscriptionId(item.url),
          name: item.name || '未命名订阅',
          url: String(item.url || '').trim(),
        }));
      if (!normalized.length && String(proxy.subscription_url || '').trim()) {
        normalized.push({
          id: makeSubscriptionId(proxy.subscription_url),
          name: '默认订阅',
          url: String(proxy.subscription_url).trim(),
        });
      }
      return normalized;
    }
    function makeSubscriptionId(url) {
      let hash = 2166136261;
      for (const ch of String(url || '')) {
        hash ^= ch.charCodeAt(0);
        hash = Math.imul(hash, 16777619) >>> 0;
      }
      return `sub-${hash.toString(16).padStart(8, '0')}`;
    }
    function renderSubscriptions() {
      if (!subscriptions.length) {
        activeSubscriptionId = '';
        fields.subscription_select.innerHTML = '<option value="">暂无订阅</option>';
        fields.subscription_name.value = '';
        fields.subscription_url.value = '';
        return;
      }
      if (!subscriptions.some(item => item.id === activeSubscriptionId)) {
        activeSubscriptionId = subscriptions[0].id;
      }
      fields.subscription_select.innerHTML = subscriptions
        .map(item => `<option value="${escapeAttr(item.id)}">${escapeHtml(item.name)} - ${escapeHtml(item.url)}</option>`)
        .join('');
      fields.subscription_select.value = activeSubscriptionId;
      const active = subscriptions.find(item => item.id === activeSubscriptionId);
      fields.subscription_name.value = active?.name || '';
      fields.subscription_url.value = active?.url || '';
    }
    function syncSubscriptionEditor() {
      const name = fields.subscription_name.value.trim();
      const url = fields.subscription_url.value.trim();
      if (!activeSubscriptionId || !url) return;
      const item = subscriptions.find(subscription => subscription.id === activeSubscriptionId);
      if (!item) return;
      item.name = name || item.name || '未命名订阅';
      item.url = url;
    }
    function addSubscriptionFromEditor() {
      const url = fields.new_subscription_url.value.trim();
      if (!url) throw new Error('请先填写订阅链接');
      const name = fields.new_subscription_name.value.trim() || `订阅 ${subscriptions.length + 1}`;
      const id = makeSubscriptionId(`${url}:${Date.now()}`);
      subscriptions.push({ id, name, url });
      activeSubscriptionId = id;
      fields.new_subscription_name.value = '';
      fields.new_subscription_url.value = '';
      renderSubscriptions();
    }
    function deleteActiveSubscription() {
      if (!activeSubscriptionId) return;
"##;

/// Settings panel script, part 1, piece E.
pub const SETTINGS_SCRIPT_1_E: &'static str = r##"      subscriptions = subscriptions.filter(item => item.id !== activeSubscriptionId);
      activeSubscriptionId = subscriptions[0]?.id || '';
      renderSubscriptions();
    }
    function delayClass(value) {
      if (value == null) return 'bad';
      if (value < 500) return 'good';
      if (value < 1500) return 'warn';
      return 'bad';
    }
    function renderGroups() {
      const groups = currentData?.proxy_state?.groups || [];
      const savedGroup = fields.selected_group.value;
      const selected = groups.some(group => group.name === savedGroup) ? savedGroup : groups[0]?.name || '';
      fields.group_select.innerHTML = groups.map(group => `<option value="${escapeHtml(group.name)}">${escapeHtml(group.name)}</option>`).join('');
      fields.group_select.value = selected;
      renderNodes();
    }
    function renderNodes() {
      const groups = currentData?.proxy_state?.groups || [];
      const group = groups.find(item => item.name === fields.group_select.value);
      if (!group) {
        views.nodes.innerHTML = '<div class="cgpt-client-node-empty">内置 Clash 未运行或暂无策略组</div>';
        return;
      }
      fields.selected_group.value = group.name;
      fields.selected_proxy.value = group.selected || fields.selected_proxy.value || '';
      views.current.textContent = `节点：${group.name} / ${group.selected || '未选择'}`;
      views.nodes.innerHTML = group.nodes.map(node => {
        const delay = delays.get(node.name);
        const delayText = delay ? (delay.delay_ms == null ? '超时' : `${delay.delay_ms} ms`) : '-';
        const selected = node.name === group.selected ? '当前' : '选择';
        return `
          <article class="cgpt-client-node-card" data-current="${node.name === group.selected}" title="${escapeAttr(node.name)}">
            <div class="cgpt-client-node-main">
              <div class="cgpt-client-node-name">${escapeHtml(node.name)}</div>
              <div class="cgpt-client-node-delay ${delayClass(delay?.delay_ms)}">${escapeHtml(delayText)}</div>
            </div>
            <div class="cgpt-client-node-meta">${escapeHtml(node.kind)}</div>
            <div class="cgpt-client-node-actions">
              <button class="cgpt-client-btn cgpt-client-node-btn" type="button" data-current="${node.name === group.selected}" data-node="${escapeAttr(node.name)}" data-action="select-node">${selected}</button>
              <button class="cgpt-client-btn" type="button" data-node="${escapeAttr(node.name)}" data-action="test-node">测速</button>
            </div>
          </article>`;
      }).join('');
    }
    function renderState(data) {
      currentData = data;
      setSettings(data.settings || initialSettings);
      views.runtime.textContent = data.runtime_running ? '状态：内置 Clash 运行中' : '状态：内置 Clash 未运行';
      if (data.controller_error || data.runtime_error) setStatus(data.controller_error || data.runtime_error);
      views.log.textContent = data.logs || '暂无日志';
      renderGroups();
    }
    function currentGroup() {
      const groups = currentData?.proxy_state?.groups || [];
      return groups.find(item => item.name === fields.group_select.value);
    }
    async function runIncrementalDelayTests({ selectFastest = false } = {}) {
      const group = currentGroup();
      if (!group) throw new Error('请先选择策略组');
      const token = ++delayRunToken;
      const nodes = group.nodes.slice();
      let cursor = 0;
      let completed = 0;
      let best = null;
      setStatus(`正在测速 0/${nodes.length}...`);
      async function worker() {
        while (cursor < nodes.length && token === delayRunToken) {
          const node = nodes[cursor++];
          delays.set(node.name, { name: node.name, delay_ms: null, error: 'testing' });
          renderNodes();
          const result = await sendCommand('testDelay', { name: node.name });
          if (token !== delayRunToken) return;
          delays.set(result.name, result);
          if (result.delay_ms != null && (!best || result.delay_ms < best.delay_ms)) {
            best = { name: result.name, delay_ms: result.delay_ms };
          }
          completed += 1;
          renderNodes();
          setStatus(`正在测速 ${completed}/${nodes.length}...`);
        }
      }
      const workers = Array.from({ length: Math.min(4, nodes.length) }, () => worker());
      await Promise.all(workers);
      if (token !== delayRunToken) {
        setStatus('测速已停止');
        return null;
      }
      if (selectFastest && best) {
        await sendCommand('selectProxy', { group: group.name, proxy: best.name });
        fields.selected_group.value = group.name;
        fields.selected_proxy.value = best.name;
        await refreshState();
        setStatus(`已切换到最快节点：${best.name} · ${best.delay_ms} ms`);
      } else {
        setStatus('测速完成');
      }
      return best;
    }
    function escapeHtml(value) {
      return String(value ?? '').replace(/[&<>"']/g, char => ({ '&': '&amp;', '<': '&lt;', '>': '&gt;', '"': '&quot;', "'": '&#39;' }[char]));
    }
    function escapeAttr(value) { return escapeHtml(value); }

    async function refreshState() {
      setStatus('正在读取代理状态...');
      const data = await sendCommand('getProxyState');
      renderState(data);
      setStatus('');
    }
    window.__chatgptClientRuntimeReady = async () => {
      runtimeReadyPending = false;
      try {
        await refreshState();
        setStatus('内置代理已就绪');
      } catch (error) {
        setStatus(error.message);
      }
    };

    setSettings(initialSettings);
    if (runtimeReadyPending) window.__chatgptClientRuntimeReady();
    fields.subscription_select.addEventListener('change', () => {
      activeSubscriptionId = fields.subscription_select.value;
      renderSubscriptions();
    });
    fields.download_save_modes.forEach(input => {
      input.addEventListener('change', () => {
        downloadSettings.save_mode = selectedDownloadSaveMode();
        syncDownloadFields();
      });
    });
"##;

/// Settings panel script, part 1, piece F.
pub const SETTINGS_SCRIPT_1_F: &'static str = r##"    fields.download_fixed_dir.addEventListener('input', () => {
      downloadSettings.fixed_dir = fields.download_fixed_dir.value;
    });
    fields.download_max_records.addEventListener('input', () => {
      downloadSettings.max_records = Number(fields.download_max_records.value || 500);
    });
    button.addEventListener('click', async () => {
      panel.hidden = !panel.hidden;
      if (!panel.hidden) {
        try { await refreshState(); } catch (error) { setStatus(error.message); }
      }
    });
    fields.group_select.addEventListener('change', renderNodes);
    panel.addEventListener('click', async (event) => {
      const target = event.target.closest('[data-action]');
      if (!target) return;
      const action = target.dataset.action;
      try {
        if (action === 'save') {
          const result = await sendCommand('saveSettings', { settings: readSettings() });
          if (result.restarted) await refreshState();
          setStatus(result.restarted ? '已保存并重启内置代理' : '已保存');
        } else if (action === 'close-panel') {
          panel.hidden = true;
        } else if (action === 'add-subscription') {
          addSubscriptionFromEditor();
          const result = await sendCommand('saveSettings', { settings: readSettings() });
          if (result.restarted) await refreshState();
          setStatus(result.restarted ? '订阅已添加并重启内置代理' : '订阅已添加');
        } else if (action === 'update-subscription') {
          syncSubscriptionEditor();
          renderSubscriptions();
          const result = await sendCommand('saveSettings', { settings: readSettings() });
          if (result.restarted) await refreshState();
          setStatus(result.restarted ? '订阅已更新并重启内置代理' : '订阅已更新');
        } else if (action === 'delete-subscription') {
          deleteActiveSubscription();
          const result = await sendCommand('saveSettings', { settings: readSettings() });
          if (result.restarted) await refreshState();
          setStatus(result.restarted ? '订阅已删除并重启内置代理' : '订阅已删除');
        } else if (action === 'choose-download-dir') {
          const current = fields.download_fixed_dir.value.trim() || 'data/Downloads';
          const next = window.prompt('请输入下载内容保存位置', current);
          if (next != null) {
            fields.download_fixed_dir.value = next.trim() || current;
            downloadSettings.fixed_dir = fields.download_fixed_dir.value;
            downloadSettings.save_mode = 'fixed';
            syncDownloadFields();
            setStatus('下载目录已更新，保存设置后生效');
          }
        } else if (action === 'reset-download-dir') {
          downloadSettings.fixed_dir = 'data/Downloads';
          downloadSettings.save_mode = 'fixed';
          syncDownloadFields();
          setStatus('已恢复默认下载目录，保存设置后生效');
        } else if (action === 'reload') {
          await refreshState();
        } else if (action === 'select-node') {
          const group = fields.group_select.value;
          const proxy = target.dataset.node;
          await sendCommand('selectProxy', { group, proxy });
          fields.selected_group.value = group;
          fields.selected_proxy.value = proxy;
          await refreshState();
          setStatus('节点已切换并保存');
        } else if (action === 'test-node') {
          const result = await sendCommand('testDelay', { name: target.dataset.node });
          delays.set(result.name, result);
          renderNodes();
        } else if (action === 'test-all') {
          await runIncrementalDelayTests();
        } else if (action === 'test-fastest') {
          await runIncrementalDelayTests({ selectFastest: true });
        } else if (action === 'cancel-tests') {
          delayRunToken += 1;
          setStatus('测速已停止');
        } else if (action === 'check-chatgpt') {
          setStatus('正在检测 ChatGPT 连通性...');
          const result = await sendCommand('checkChatGpt');
          setStatus(result.ok ? `ChatGPT 可访问，延时 ${result.delay_ms ?? '-'} ms` : `ChatGPT 检测失败：${result.error || '未知错误'}`);
        } else if (action === 'repair-proxy') {
          setStatus('正在一键修复代理...');
          const result = await sendCommand('repairProxy');
          await refreshState();
          setStatus(`修复完成：${result.group} / ${result.proxy} · ${result.delay_ms ?? '-'} ms`);
        } else if (action === 'restart-runtime') {
          setStatus('正在重启内置代理...');
          const result = await sendCommand('restartRuntime');
          await refreshState();
          setStatus(result.restarted ? '内置代理已重启' : `重启失败：${result.runtime_error || '未知错误'}`);
        } else if (action === 'optimize-memory') {
          setStatus('正在清理后台页面内存...');
          const result = await sendCommand('optimizeMemory');
          setStatus(`已清理后台页面：释放 ${result.released_pages ?? 0} 个页面`);
        } else if (action === 'logs') {
          const result = await sendCommand('readProxyLogs');
          views.log.textContent = result.logs || '暂无日志';
        } else if (action === 'refresh-subscription') {
          setStatus('正在刷新订阅...');
          const result = await sendCommand('refreshSubscription');
          await refreshState();
          setStatus(result.restart_required ? '订阅已刷新，重启后完全生效' : '订阅已刷新');
        }
      } catch (error) {
        setStatus(error.message);
      }
    });
  }

  if (document.readyState === 'loading') {
    document.addEventListener('DOMContentLoaded', installSettingsButton, { once: true });
  } else {
    installSettingsButton();
  }
  installDownloadFallback();
})();
"##;

/// Settings panel script, part 1: its pieces in order.
pub open spec fn settings_script_1() -> Seq<char> {
    SETTINGS_SCRIPT_1_A@ + SETTINGS_SCRIPT_1_B@ + SETTINGS_SCRIPT_1_C@ + SETTINGS_SCRIPT_1_D@ + SETTINGS_SCRIPT_1_E@ + SETTINGS_SCRIPT_1_F@
}

/// Appends settings panel script, part 1.
pub fn push_settings_script_1(out: &mut String)
    ensures
        final(out)@ == old(out)@ + settings_script_1(),
{
    let ghost start = out@;
    push_str(out, SETTINGS_SCRIPT_1_A);
    push_str(out, SETTINGS_SCRIPT_1_B);
    push_str(out, SETTINGS_SCRIPT_1_C);
    push_str(out, SETTINGS_SCRIPT_1_D);
    push_str(out, SETTINGS_SCRIPT_1_E);
    push_str(out, SETTINGS_SCRIPT_1_F);
    assert(out@ =~= start + settings_script_1());
}

/// Runtime-ready script, part 0.
pub const READY_SCRIPT_0: &'static str = r##"
      const isWaitingPage = window.location.href.startsWith('data:text/html') || window.location.href === 'about:blank';
      if (isWaitingPage) {
        window.location.href = '"##;

/// Runtime-ready script, part 1.
pub const READY_SCRIPT_1: &'static str = r##"';
      } else {
        window.__chatgptClientRuntimeReady && window.__chatgptClientRuntimeReady();
      }
    "##;

/// Startup waiting page, part 0.
pub const WAITING_PAGE_0: &'static str = r##"<!doctype html>
<html lang="zh-CN">
<head>
  <meta charset="utf-8">
  <meta name="viewport" content="width=device-width, initial-scale=1">
  <title>AI Web Client</title>
  <style>
    body { margin: 0; min-height: 100vh; display: grid; place-items: center; background: #fff; color: #111; font: 16px/1.5 system-ui, -apple-system, BlinkMacSystemFont, "Segoe UI", sans-serif; }
    main { width: min(520px, calc(100vw - 40px)); }
    h1 { margin: 0 0 10px; font-size: 24px; }
    p { margin: 6px 0; color: #555; }
    .status { margin: 14px 0; padding: 12px; border: 1px solid #d9dde3; border-radius: 8px; background: #f7f8fa; }
    .actions { display: none; gap: 8px; margin-top: 14px; flex-wrap: wrap; }
    .actions[data-visible="true"] { display: flex; }
    button { border: 1px solid #cfd5df; border-radius: 7px; background: #fff; padding: 7px 10px; cursor: pointer; }
  </style>
</head>
<body>
  <main>
    <h1>正在启动内置代理</h1>
    <p>代理就绪后会自动打开 "##;

/// Startup waiting page, part 1.
pub const WAITING_PAGE_1: &'static str = r##"。右下角“设”可以查看订阅、节点和日志。</p>
    <div class="status" data-startup-stages=""##;

/// Startup waiting page, part 2.
pub const WAITING_PAGE_2: &'static str = r##"">
      <p>当前步骤：<strong data-startup-stage>读取配置</strong></p>
      <p>已用时：<span data-startup-elapsed>0</span>s</p>
      <p data-startup-message></p>
    </div>
    <div class="actions" data-startup-actions data-visible="false">
      <button type="button" onclick="window.location.reload()">重试代理</button>
      <button type="button" onclick="window.location.href='"##;

/// Startup waiting page, part 3.
pub const WAITING_PAGE_3: &'static str = r##"'">跳过代理打开</button>
      <button type="button" onclick="window.location.href='"##;

/// Startup waiting page, part 4.
pub const WAITING_PAGE_4: &'static str = r##"'">继续打开</button>
    </div>
  </main>
  <script>
    const startupStartedAt = Date.now();
    setInterval(() => {
      const elapsed = document.querySelector('[data-startup-elapsed]');
      if (elapsed) elapsed.textContent = String(Math.floor((Date.now() - startupStartedAt) / 1000));
    }, 1000);
    setTimeout(() => {
      document.querySelector('[data-startup-actions]')?.setAttribute('data-visible', 'true');
    }, 15000);
  </script>
</body>
</html>"##;

/// Download manager page, part 0, piece A.
pub const DOWNLOAD_MANAGER_0_A: &'static str = r##"<!doctype html>
<html lang="zh-CN">
<head>
  <meta charset="utf-8">
  <meta name="viewport" content="width=device-width, initial-scale=1">
  <title>下载管理</title>
  <style>
    :root { --surface: #fff; --surface-muted: #f5f6f8; --line: #d9dde3; --line-strong: #a8b0bd; --text: #15181d; --muted: #687080; --ok: #0b7a3b; --bad: #9b1c1c; --blue: #2457b0; }
    * { box-sizing: border-box; }
    html, body { width: 100%; height: 100%; margin: 0; overflow: hidden; background: var(--surface); color: var(--text); font: 13px/1.45 system-ui, -apple-system, BlinkMacSystemFont, "Segoe UI", sans-serif; }
    button, input { font: inherit; }
    body { display: grid; grid-template-rows: auto auto minmax(0, 1fr); }
    header { display: flex; align-items: center; justify-content: space-between; gap: 16px; padding: 16px 18px 12px; border-bottom: 1px solid var(--line); }
    h1 { margin: 0; font-size: 18px; font-weight: 700; letter-spacing: 0; }
    .hint { color: var(--muted); margin-top: 3px; }
    .actions { display: flex; align-items: center; gap: 8px; flex-wrap: wrap; justify-content: flex-end; }
    .toolbar { display: grid; grid-template-columns: minmax(180px, 420px) auto; gap: 12px; align-items: center; padding: 12px 18px; border-bottom: 1px solid var(--line); background: var(--surface-muted); }
    .search { width: 100%; height: 34px; border: 1px solid var(--line); border-radius: 7px; padding: 0 10px; background: #fff; color: var(--text); outline: none; }
    .search:focus { border-color: var(--line-strong); }
    .summary { justify-self: end; color: var(--muted); white-space: nowrap; }
    .btn { min-height: 32px; border: 1px solid var(--line); border-radius: 7px; background: #fff; color: var(--text); padding: 0 10px; cursor: pointer; }
    .btn:hover { border-color: var(--line-strong); background: #eef1f5; }
    .btn.primary { background: #15181d; color: #fff; border-color: #15181d; }
    .content { min-height: 0; overflow: auto; padding: 12px 18px 18px; }
    .empty { display: none; place-items: center; min-height: 220px; color: var(--muted); border: 1px dashed var(--line); border-radius: 8px; background: #fafbfc; }
    .empty[data-visible="true"] { display: grid; }
    .list { display: grid; gap: 10px; }
    .download-row { display: grid; grid-template-columns: minmax(0, 1fr) auto; gap: 12px; align-items: center; border: 1px solid var(--line); border-radius: 8px; padding: 12px; background: #fff; }
    .download-row:hover { border-color: var(--line-strong); }
    .name-row { display: flex; align-items: center; gap: 8px; min-width: 0; }
    .name { overflow: hidden; text-overflow: ellipsis; white-space: nowrap; font-weight: 650; }
    .status { flex: 0 0 auto; border: 1px solid var(--line); border-radius: 999px; padding: 1px 8px; color: var(--muted); font-size: 12px; }
    .status[data-status="completed"] { border-color: #b8dbc7; color: var(--ok); }
    .status[data-status="failed"], .status[data-status="cancelled"] { border-color: #f0b7b7; color: var(--bad); }
    .status[data-status="started"] { border-color: #c9d9fb; color: var(--blue); }
    .meta, .path { margin-top: 4px; color: var(--muted); overflow: hidden; text-overflow: ellipsis; white-space: nowrap; }
    .path { font-family: ui-monospace, SFMono-Regular, Consolas, monospace; font-size: 12px; }
    .row-actions { display: flex; align-items: center; gap: 6px; }
    .row-actions .btn { min-height: 30px; padding-inline: 9px; }
    @media (max-width: 760px) {
      header, .toolbar { display: flex; align-items: stretch; flex-direction: column; }
      .actions, .summary { justify-content: flex-start; justify-self: start; }
      .download-row { grid-template-columns: minmax(0, 1fr); }
      .row-actions { flex-wrap: wrap; }
    }
  </style>
</head>
<body>
  <header>
    <div>
      <h1>下载管理</h1>
      <div class="hint">查看下载记录、打开文件位置或调整保存路径。</div>
    </div>
    <div class="actions">
      <button class="btn" type="button" data-action="openDownloadSettings">保存路径设置</button>
      <button class="btn" type="button" data-action="clearCompletedDownloads">清除已完成</button>
      <button class="btn primary" type="button" data-action="closeDownloadManager">关闭</button>
    </div>
  </header>
  <section class="toolbar" aria-label="下载筛选">
    <input class="search" type="search" placeholder="搜索文件名、路径或来源" data-download-filter>
    <div class="summary" data-download-summary>0 个下载记录</div>
  </section>
  <main class="content">
    <div class="empty" data-download-empty data-visible="false">暂无下载记录</div>
    <div class="list" data-download-list></div>
  </main>
  <script>
    let downloads = [];
    let requestSeq = 0;
    const filterInput = document.querySelector('[data-download-filter]');
    const list = document.querySelector('[data-download-list]');
    const empty = document.querySelector('[data-download-empty]');
    const summary = document.querySelector('[data-download-summary]');

    function sendCommand(type, payload = {}) {
      if (!window.ipc || typeof window.ipc.postMessage !== 'function') return;
      window.ipc.postMessage(JSON.stringify({ id: String(++requestSeq), type, payload }));
    }
    function escapeHtml(value) {
      return String(value ?? '').replace(/[&<>"']/g, ch => ({ '&': '&amp;', '<': '&lt;', '>': '&gt;', '"': '&quot;', "'": '&#039;' }[ch]));
    }
    function statusLabel(status) {
      switch (status) {
        case 'started': return '下载中';
        case 'completed': return '已完成';
        case 'failed': return '失败';
        case 'diagnostic': return '诊断';
        case 'cancelled': return '已取消';
        case 'missing': return '文件缺失';
        default: return status || '-';
      }
    }
    function formatBytes(bytes) {
      if (!Number.isFinite(bytes) || bytes <= 0) return '';
      const units = ['B', 'KB', 'MB', 'GB'];
      let value = bytes;
      let unit = 0;
      while (value >= 1024 && unit < units.length - 1) { value /= 1024; unit += 1; }
      return `${value.toFixed(unit === 0 ? 0 : 1)} ${units[unit]}`;
    }
"##;

/// Download manager page, part 0, piece B.
pub const DOWNLOAD_MANAGER_0_B: &'static str = r##"    function formatTime(timestamp) {
      const value = Number(timestamp);
      if (!Number.isFinite(value) || value <= 0) return '';
      try { return new Date(value).toLocaleString(); } catch (_) { return ''; }
    }
    function currentFilter() {
      return (filterInput?.value || '').trim().toLowerCase();
    }
    function filteredDownloads() {
      const query = currentFilter();
      if (!query) return downloads;
      return downloads.filter(item => [item.filename, item.path, item.url, item.message, item.status]
        .some(value => String(value || '').toLowerCase().includes(query)));
    }
    function render() {
      const items = filteredDownloads();
      const completed = downloads.filter(item => item.status === 'completed').length;
      const failed = downloads.filter(item => item.status === 'failed').length;
      summary.textContent = `${downloads.length} 个记录，${completed} 个完成，${failed} 个失败`;
      empty.dataset.visible = String(items.length === 0);
      list.innerHTML = items.map(item => {
        const path = item.path || '';
        const meta = [formatTime(item.timestamp_ms), formatBytes(item.bytes), item.message || item.url || ''].filter(Boolean).join(' · ');
        const openDisabled = path ? '' : ' disabled';
        return `<article class="download-row" data-download-id="${item.id}">
          <div class="download-main">
            <div class="name-row">
              <div class="name" title="${escapeHtml(item.filename || 'download')}">${escapeHtml(item.filename || 'download')}</div>
              <span class="status" data-status="${escapeHtml(item.status || 'missing')}">${escapeHtml(statusLabel(item.status))}</span>
            </div>
            <div class="meta" title="${escapeHtml(meta)}">${escapeHtml(meta || '-')}</div>
            <div class="path" title="${escapeHtml(path || item.url || '')}">${escapeHtml(path || item.url || '无本地路径')}</div>
          </div>
          <div class="row-actions">
            <button class="btn" type="button" data-action="openDownloadPath" data-path="${escapeHtml(path)}"${openDisabled}>打开文件</button>
            <button class="btn" type="button" data-action="openDownloadFolder" data-path="${escapeHtml(path)}"${openDisabled}>打开目录</button>
            <button class="btn" type="button" data-action="deleteDownloadRecord" data-id="${item.id}">删除记录</button>
          </div>
        </article>`;
      }).join('');
    }
    window.__aiClientSyncDownloads = (payload = {}) => {
      downloads = Array.isArray(payload.downloads) ? payload.downloads : [];
      render();
    };
    filterInput?.addEventListener('input', render);
    document.addEventListener('click', event => {
      const button = event.target.closest('[data-action]');
      if (!button) return;
      const action = button.dataset.action;
      if (action === 'openDownloadPath') sendCommand(action, { path: button.dataset.path || '' });
      else if (action === 'openDownloadFolder') sendCommand(action, { path: button.dataset.path || '' });
      else if (action === 'deleteDownloadRecord') sendCommand(action, { id: Number(button.dataset.id || 0) });
      else sendCommand(action);
    });
    window.addEventListener('keydown', event => {
      if (event.key === 'Escape') sendCommand('closeDownloadManager');
    });
    window.__aiClientSyncDownloads("##;

/// Download manager page, part 0: its pieces in order.
pub open spec fn download_manager_0() -> Seq<char> {
    DOWNLOAD_MANAGER_0_A@ + DOWNLOAD_MANAGER_0_B@
}

/// Appends download manager page, part 0.
pub fn push_download_manager_0(out: &mut String)
    ensures
        final(out)@ == old(out)@ + download_manager_0(),
{
    let ghost start = out@;
    push_str(out, DOWNLOAD_MANAGER_0_A);
    push_str(out, DOWNLOAD_MANAGER_0_B);
    assert(out@ =~= start + download_manager_0());
}

/// Download manager page, part 1.
pub const DOWNLOAD_MANAGER_1: &'static str = r##");
  </script>
</body>
</html>"##;

/// Conversation export script, part 0.
pub const EXPORT_SCRIPT_0: &'static str = r##"
(() => {
  const format = '"##;

/// Conversation export script, part 1.
pub const EXPORT_SCRIPT_1: &'static str = r##"';
  const siteTitle = "##;

/// Conversation export script, part 2.
pub const EXPORT_SCRIPT_2: &'static str = r##";
  let requestSeq = window.__aiClientExportSeq || 0;
  window.__aiClientExportSeq = requestSeq + 1;

  function textOf(element) {
    return (element && element.innerText ? element.innerText : '')
      .replace(/\r/g, '')
      .replace(/[ \t]+\n/g, '\n')
      .replace(/\n{3,}/g, '\n\n')
      .trim();
  }

  function roleLabel(role, index) {
    const normalized = String(role || '').toLowerCase();
    if (normalized.includes('user') || normalized.includes('human')) return '用户';
    if (normalized.includes('assistant') || normalized.includes('model') || normalized.includes('ai')) return 'AI';
    return index % 2 === 0 ? '用户' : 'AI';
  }

  function uniqueBlocks(selectors) {
    const seen = new Set();
    const blocks = [];
    selectors.forEach(selector => {
      document.querySelectorAll(selector).forEach(element => {
        if (seen.has(element)) return;
        seen.add(element);
        const text = textOf(element);
        if (text.length < 2) return;
        const role = element.getAttribute('data-message-author-role')
          || element.getAttribute('data-testid')
          || element.getAttribute('aria-label')
          || element.className
          || '';
        blocks.push({ role, text });
      });
    });
    return blocks;
  }

  function extractConversationMarkdown() {
    const selectors = [
      '[data-message-author-role]',
      '[data-testid*="conversation-turn"]',
      '[data-testid*="message"]',
      'message-content',
      'article',
      'main [role="listitem"]',
      'main .conversation-container',
      'main .markdown',
      'main p'
    ];
    let blocks = uniqueBlocks(selectors);
    if (blocks.length < 2) {
      const main = document.querySelector('main') || document.body;
      const fallback = textOf(main);
      if (fallback.length > 20) blocks = [{ role: '页面', text: fallback }];
    }
    const compact = [];
    blocks.forEach((block, index) => {
      const text = block.text;
      if (!text || compact.some(existing => existing.text === text || existing.text.includes(text))) return;
      compact.push({ role: roleLabel(block.role, index), text });
    });
    if (!compact.length) throw new Error('当前页面未识别到可导出的对话内容');
    return compact.map((block, index) => `## ${index + 1}. ${block.role}\n\n${block.text}`).join('\n\n');
  }

  try {
    const markdown = extractConversationMarkdown();
    window.ipc.postMessage(JSON.stringify({
      id: `export-${++requestSeq}`,
      type: 'exportConversation',
      payload: {
        format,
        site_title: siteTitle,
        url: location.href,
        title: document.title || siteTitle,
        markdown
      }
    }));
  } catch (error) {
    window.ipc.postMessage(JSON.stringify({
      id: `export-error-${++requestSeq}`,
      type: 'downloadDiagnostic',
      payload: { level: 'error', message: `导出失败：${error && (error.message || error)}` }
    }));
  }
})();
"##;

/// Download interceptor script, part 0.
pub const INTERCEPTOR_0: &'static str = r##"
(() => {
  if (window.__chatgptClientDownloadInterceptorInstalled) return;
  window.__chatgptClientDownloadInterceptorInstalled = true;
  const downloadIpcToken = "##;

/// Download interceptor script, part 1, piece A.
pub const INTERCEPTOR_1_A: &'static str = r##";

  const pending = new Map();
  let requestSeq = 0;
  const previousReceive = window.__chatgptClientReceive;
  window.__chatgptClientReceive = (message) => {
    const entry = message && pending.get(message.id);
    if (entry) {
      pending.delete(message.id);
      if (message.ok) entry.resolve(message.data);
      else entry.reject(new Error(message.error || '下载失败'));
      return;
    }
    if (typeof previousReceive === 'function') previousReceive(message);
  };

  function canUseNativeIpc() {
    return window.ipc && typeof window.ipc.postMessage === 'function';
  }

  function sendDownloadCommand(type, payload, timeoutMs = 30000) {
    if (!canUseNativeIpc()) return Promise.reject(new Error('当前页面暂不能保存文件'));
    const id = `download-${++requestSeq}`;
    return new Promise((resolve, reject) => {
      pending.set(id, { resolve, reject });
      window.ipc.postMessage(JSON.stringify({ id, type, payload }));
      setTimeout(() => {
        if (pending.delete(id)) reject(new Error('保存文件超时'));
      }, timeoutMs);
    });
  }

  function sendSaveDownload(payload) {
    return sendDownloadCommand('saveDownload', payload);
  }

  function sendDownloadUrl(payload) {
    return sendDownloadCommand('downloadUrl', Object.assign({}, payload, { token: downloadIpcToken }), 300000);
  }

  function notifyDownloadError(message) {
    if (!canUseNativeIpc()) return;
    window.ipc.postMessage(JSON.stringify({
      id: `download-error-${++requestSeq}`,
      type: 'downloadDiagnostic',
      payload: { level: 'error', message: String(message || '下载失败') }
    }));
  }

  function filenameFromAnchor(anchor, url) {
    const explicitName = anchor && anchor.getAttribute('download');
    if (explicitName && explicitName.trim()) return explicitName.trim();
    try {
      const parsed = new URL(url, window.location.href);
      const last = parsed.pathname.split('/').filter(Boolean).pop();
      return decodeURIComponent(last || 'download');
    } catch (_) {
      return 'download';
    }
  }

  function looksLikeDownloadUrl(url, anchor) {
    if (!url.startsWith('http://') && !url.startsWith('https://')) return false;
    if (anchor && anchor.hasAttribute('download')) return true;
    try {
      const parsed = new URL(url, window.location.href);
      const last = decodeURIComponent(parsed.pathname.split('/').filter(Boolean).pop() || '');
      if (/\.(7z|apk|csv|dmg|doc|docx|gz|json|md|pdf|pkg|ppt|pptx|rar|tar|txt|xls|xlsx|xml|yaml|yml|zip)$/i.test(last)) {
        return true;
      }
      const text = String(anchor && anchor.textContent || '').trim();
      return /\.(7z|apk|csv|dmg|doc|docx|gz|json|md|pdf|pkg|ppt|pptx|rar|tar|txt|xls|xlsx|xml|yaml|yml|zip)$/i.test(text);
    } catch (_) {
      return false;
    }
  }

  function hasUserActivation() {
    return !navigator.userActivation || navigator.userActivation.isActive;
  }

  function blobToBase64(blob) {
    return new Promise((resolve, reject) => {
      const reader = new FileReader();
      reader.onloadend = () => {
        const value = String(reader.result || '');
        resolve(value.includes(',') ? value.split(',').pop() : value);
      };
      reader.onerror = () => reject(reader.error || new Error('读取下载内容失败'));
      reader.readAsDataURL(blob);
    });
  }

  async function saveBlobUrl(url, filename) {
    const response = await fetch(url);
    if (!response.ok) throw new Error(`读取下载内容失败：${response.status}`);
    const blob = await response.blob();
    const contentBase64 = await blobToBase64(blob);
    return sendSaveDownload({ filename, content_base64: contentBase64 });
  }

  function saveDataUrl(url, filename) {
    const comma = url.indexOf(',');
    if (comma < 0) return Promise.reject(new Error('无效的 data 下载链接'));
    const meta = url.slice(0, comma);
    const body = url.slice(comma + 1);
    const contentBase64 = /;base64/i.test(meta)
      ? body
      : btoa(unescape(encodeURIComponent(decodeURIComponent(body))));
    return sendSaveDownload({ filename, content_base64: contentBase64 });
  }

  async function saveHttpUrl(url, filename) {
    try {
      const response = await fetch(url, { credentials: 'include' });
      if (!response.ok) throw new Error(`读取下载内容失败：${response.status}`);
      const blob = await response.blob();
      const contentBase64 = await blobToBase64(blob);
      return sendSaveDownload({ filename, content_base64: contentBase64 });
    } catch (error) {
      console.warn('[AI Web Client] browser-session download failed, using native URL download', error);
      return sendDownloadUrl({ url, filename });
    }
  }

  async function saveClientSideDownload(url, filename) {
    if (url.startsWith('blob:')) return saveBlobUrl(url, filename);
    if (url.startsWith('data:')) return saveDataUrl(url, filename);
    if (url.startsWith('http://') || url.startsWith('https://')) return saveHttpUrl(url, filename);
    return null;
  }

  function handleDownloadAnchor(anchor) {
    if (!anchor) return false;
    const href = anchor.href || '';
    if (!href.startsWith('blob:') && !href.startsWith('data:') && !looksLikeDownloadUrl(href, anchor)) return false;
    if ((href.startsWith('http://') || href.startsWith('https://')) && !hasUserActivation()) return false;
    const filename = filenameFromAnchor(anchor, href);
    saveClientSideDownload(href, filename).catch(error => {
      console.warn('[AI Web Client] download fallback failed', error);
      notifyDownloadError(error && error.message ? error.message : '下载失败');
    });
    return true;
  }

  document.addEventListener('click', (event) => {
    const anchor = event.target && event.target.closest && event.target.closest('a[href]');
    if (!handleDownloadAnchor(anchor)) return;
    event.preventDefault();
    event.stopPropagation();
  }, true);

  const nativeAnchorClick = HTMLAnchorElement.prototype.click;
  HTMLAnchorElement.prototype.click = function() {
    if (handleDownloadAnchor(this)) return;
"##;

/// Download interceptor script, part 1, piece B.
pub const INTERCEPTOR_1_B: &'static str = r##"    return nativeAnchorClick.apply(this, arguments);
  };

  const nativeOpen = window.open;
  window.open = function(url, target, features) {
    if (typeof url === 'string' && (url.startsWith('blob:') || url.startsWith('data:'))) {
      saveClientSideDownload(url, filenameFromAnchor(null, url)).catch(error => {
        console.warn('[AI Web Client] popup download fallback failed', error);
      });
      return null;
    }
    if (typeof url === 'string' && looksLikeDownloadUrl(url, null)) {
      if (!hasUserActivation()) return nativeOpen ? nativeOpen.apply(window, arguments) : null;
      saveClientSideDownload(url, filenameFromAnchor(null, url)).catch(error => {
        console.warn('[AI Web Client] popup URL download failed', error);
        notifyDownloadError(error && error.message ? error.message : '下载失败');
      });
      return null;
    }
    return nativeOpen ? nativeOpen.apply(window, arguments) : null;
  };

  window.__aiClientNativeShowSaveFilePicker = window.showSaveFilePicker;
  window.showSaveFilePicker = async function(options = {}) {
    const suggestedName = options.suggestedName || 'download';
    let chunks = [];
    let closed = false;
    async function flush() {
      if (closed) return;
      closed = true;
      const blob = new Blob(chunks);
      const contentBase64 = await blobToBase64(blob);
      chunks = [];
      return sendSaveDownload({ filename: suggestedName, content_base64: contentBase64 });
    }
    return {
      kind: 'file',
      name: suggestedName,
      async createWritable() {
        return {
          async write(chunk) {
            if (chunk == null) return;
            if (chunk instanceof Blob) chunks.push(chunk);
            else if (chunk instanceof ArrayBuffer) chunks.push(new Blob([chunk]));
            else if (ArrayBuffer.isView(chunk)) chunks.push(new Blob([chunk.buffer.slice(chunk.byteOffset, chunk.byteOffset + chunk.byteLength)]));
            else if (typeof chunk === 'object' && chunk.type === 'write' && chunk.data != null) {
              const data = chunk.data;
              if (data instanceof Blob) chunks.push(data);
              else if (data instanceof ArrayBuffer) chunks.push(new Blob([data]));
              else if (ArrayBuffer.isView(data)) chunks.push(new Blob([data.buffer.slice(data.byteOffset, data.byteOffset + data.byteLength)]));
              else chunks.push(new Blob([String(data)]));
            } else if (typeof chunk === 'object' && (chunk.type === 'seek' || chunk.type === 'truncate')) {
              return;
            } else {
              chunks.push(new Blob([String(chunk)]));
            }
          },
          async close() { return flush(); },
          async abort() { chunks = []; closed = true; }
        };
      }
    };
  };

  navigator.msSaveBlob = navigator.msSaveBlob || function(blob, filename) {
    saveClientSideDownload(URL.createObjectURL(blob), filename || 'download').catch(error => {
      notifyDownloadError(error && (error.message || error));
    });
    return true;
  };
  navigator.msSaveOrOpenBlob = navigator.msSaveOrOpenBlob || navigator.msSaveBlob;

  window.addEventListener('unhandledrejection', event => {
    const message = event.reason && (event.reason.message || event.reason);
    if (String(message || '').includes('下载') || String(message || '').includes('save')) {
      notifyDownloadError(message);
    }
  });
})();
"##;

/// Download interceptor script, part 1: its pieces in order.
pub open spec fn interceptor_1() -> Seq<char> {
    INTERCEPTOR_1_A@ + INTERCEPTOR_1_B@
}

/// Appends download interceptor script, part 1.
pub fn push_interceptor_1(out: &mut String)
    ensures
        final(out)@ == old(out)@ + interceptor_1(),
{
    let ghost start = out@;
    push_str(out, INTERCEPTOR_1_A);
    push_str(out, INTERCEPTOR_1_B);
    assert(out@ =~= start + interceptor_1());
}

/// Start-up failure script, part 0.
pub const FAILED_SCRIPT_0: &'static str = r##"
(() => {
  const payload = "##;

/// Start-up failure script, part 1.
pub const FAILED_SCRIPT_1: &'static str = r##";
  const isWaitingPage = window.location.href.startsWith('data:text/html') || window.location.href === 'about:blank';
  if (!isWaitingPage) {
    window.__chatgptClientReceive && window.__chatgptClientReceive({
      id: null,
      ok: false,
      error: payload.message
    });
    return;
  }
  document.body.innerHTML = '';
  document.body.style.cssText = 'margin:0;min-height:100vh;display:grid;place-items:center;background:#fff;color:#111;font:16px/1.5 system-ui,-apple-system,BlinkMacSystemFont,"Segoe UI",sans-serif;';
  const main = document.createElement('main');
  main.style.cssText = 'width:min(680px,calc(100vw - 40px));';
  const title = document.createElement('h1');
  title.textContent = payload.title;
  title.style.cssText = 'margin:0 0 10px;font-size:24px;';
  const message = document.createElement('pre');
  message.textContent = payload.message;
  message.style.cssText = 'white-space:pre-wrap;margin:12px 0;padding:12px;border:1px solid #ddd;border-radius:8px;background:#f7f7f8;color:#333;font:13px/1.45 ui-monospace,SFMono-Regular,Consolas,monospace;';
  const hint = document.createElement('p');
  hint.textContent = payload.hint;
  hint.style.cssText = 'margin:6px 0;color:#555;';
  main.append(title, hint, message);
  document.body.appendChild(main);
})();
"##;

/// Start-up progress script, part 0.
pub const PROGRESS_SCRIPT_0: &'static str = r##"
(() => {
  const payload = "##;

/// Start-up progress script, part 1.
pub const PROGRESS_SCRIPT_1: &'static str = r##";
  const stage = document.querySelector('[data-startup-stage]');
  const elapsed = document.querySelector('[data-startup-elapsed]');
  const message = document.querySelector('[data-startup-message]');
  if (stage) stage.textContent = payload.label || payload.stage || '';
  if (elapsed) elapsed.textContent = String(payload.elapsed_secs || 0);
  if (message) message.textContent = payload.message || '';
  if (payload.stage === 'failed') {
    document.querySelector('[data-startup-actions]')?.setAttribute('data-visible', 'true');
  }
})();
"##;

/// Tab close button, part 0.
pub const CLOSE_BUTTON_0: &'static str = r##"<button class="tab-close" type="button" title="关闭 "##;

/// Tab close button, part 1.
pub const CLOSE_BUTTON_1: &'static str = r##"" aria-label="关闭 "##;

/// Tab close button, part 2.
pub const CLOSE_BUTTON_2: &'static str = r##"" data-action="closeSite" data-site=""##;

/// Tab close button, part 3.
pub const CLOSE_BUTTON_3: &'static str = r##"">×</button>"##;

/// Top shell tab, part 0.
pub const TAB_0: &'static str = r##"<div class="tab" role="button" tabindex="0" data-site=""##;

/// Top shell tab, part 1.
pub const TAB_1: &'static str = r##"" data-active=""##;

/// Top shell tab, part 2.
pub const TAB_2: &'static str = r##"" data-started=""##;

/// Top shell tab, part 3.
pub const TAB_3: &'static str = r##"">
          <span class="tab-dot"></span>
          <span class="tab-name">"##;

/// Top shell tab, part 4.
pub const TAB_4: &'static str = r##"</span>
          <span class="tab-shortcut">"##;

/// Top shell tab, part 5.
pub const TAB_5: &'static str = r##"</span>
          "##;

/// Top shell tab, part 6.
pub const TAB_6: &'static str = r##"
        </div>"##;

/// Top shell page, part 0.
pub const TOP_SHELL_0: &'static str = r##"<!doctype html>
<html lang="zh-CN">
<head>
  <meta charset="utf-8">
  <meta name="viewport" content="width=device-width, initial-scale=1">
  <style>
    :root { --surface: #fff; --surface-muted: #f0f2f5; --line: #d9dde3; --line-strong: #a8b0bd; --text: #15181d; --muted: #687080; --ok: #0b7a3b; }
    * { box-sizing: border-box; }
    html, body { width: 100%; height: 100%; margin: 0; overflow: hidden; background: transparent; color: var(--text); font: 13px/1.45 system-ui, -apple-system, BlinkMacSystemFont, "Segoe UI", sans-serif; }
    button { font: inherit; }
    .topbar { display: grid; grid-template-columns: minmax(0, 1fr) auto; align-items: center; gap: 12px; height: 52px; border-bottom: 1px solid var(--line); background: rgba(255,255,255,.96); padding: 8px 12px; }
    .tabs { display: flex; align-items: center; gap: 7px; min-width: 0; overflow: auto; scrollbar-width: none; }
    .tabs::-webkit-scrollbar { display: none; }
    .tab { display: inline-grid; grid-template-columns: auto minmax(0, auto) auto auto; align-items: center; gap: 7px; min-width: 116px; height: 36px; border: 1px solid transparent; border-radius: 8px; background: transparent; color: var(--muted); padding: 0 7px 0 10px; cursor: pointer; white-space: nowrap; }
    .tab:hover { background: var(--surface-muted); color: var(--text); }
    .tab[data-active="true"] { border-color: var(--line); background: var(--surface); color: var(--text); box-shadow: 0 4px 14px rgba(22,31,45,.08); }
    .tab-dot { width: 8px; height: 8px; border-radius: 999px; background: var(--line-strong); }
    .tab[data-started="true"] .tab-dot { background: var(--ok); }
    .tab-name { overflow: hidden; text-overflow: ellipsis; }
    .tab-shortcut { color: var(--muted); font-size: 11px; }
    .tab-close { display: grid; place-items: center; width: 22px; height: 22px; border: 0; border-radius: 999px; background: transparent; color: var(--muted); cursor: pointer; font-size: 17px; line-height: 1; }
    .tab-close:hover { background: #e5e9ef; color: var(--text); }
    .tab[data-started="false"] .tab-close { display: none; }
    .actions { display: flex; align-items: center; gap: 6px; min-width: 0; }
    .top-status { display: flex; align-items: center; gap: 7px; padding-right: 4px; }
    .pill { display: inline-flex; align-items: center; gap: 6px; min-height: 28px; border: 1px solid var(--line); border-radius: 999px; background: rgba(255,255,255,.76); padding: 0 10px; color: var(--muted); white-space: nowrap; }
    .latency-pill { flex: 0 0 auto; min-width: 104px; justify-content: center; overflow: visible; }
    .pill[data-health="good"] { border-color: #b8dbc7; color: #0b7a3b; }
    .pill[data-health="bad"] { border-color: #f0b7b7; color: #9b1c1c; }
    .pill strong { color: var(--text); font-weight: 650; }
    .toolbar-divider { width: 1px; height: 24px; background: var(--line); margin: 0 4px; }
    .icon-btn { display: grid; place-items: center; width: 34px; height: 34px; border: 1px solid var(--line); border-radius: 8px; background: var(--surface); color: var(--text); cursor: pointer; }
    .icon-btn:hover { border-color: var(--line-strong); background: var(--surface-muted); }
    .icon-btn svg { width: 17px; height: 17px; stroke: currentColor; stroke-width: 2; fill: none; stroke-linecap: round; stroke-linejoin: round; }
    .toast-region { position: fixed; right: 12px; top: 8px; z-index: 30; display: grid; gap: 8px; width: min(360px, calc(100vw - 24px)); pointer-events: none; }
    .toast { border: 1px solid var(--line); border-radius: 8px; background: rgba(255,255,255,.98); box-shadow: 0 10px 28px rgba(22,31,45,.16); padding: 7px 10px; color: var(--text); animation: toast-in .16s ease-out; }
    .toast[data-success="false"] { border-color: #f0b7b7; }
    .toast-title { font-weight: 650; }
    .toast-path { display: block; width: 100%; margin: 3px 0 0; border: 0; background: transparent; color: var(--muted); overflow: hidden; text-overflow: ellipsis; white-space: nowrap; font-size: 12px; text-align: left; cursor: pointer; padding: 0; pointer-events: auto; }
    .toast-path:hover { color: var(--text); text-decoration: underline; }
    @keyframes toast-in { from { opacity: 0; transform: translateY(-4px); } to { opacity: 1; transform: translateY(0); } }
    @media (max-width: 820px) {
      .topbar { grid-template-columns: minmax(0, 1fr) auto; gap: 8px; padding-inline: 8px; }
      .tab { min-width: 94px; padding-inline: 8px; }
      .tab-shortcut, .top-status, .toolbar-divider { display: none; }
    }
  </style>
</head>
<body>
  <header class="topbar">
    <nav class="tabs" aria-label="AI pages">
      "##;

/// Top shell page, part 1.
pub const TOP_SHELL_1: &'static str = r##"
    </nav>
    <div class="actions" aria-label="Page actions">
      <div class="top-status" aria-label="Current status">
        <span class="pill latency-pill" data-latency-label data-health="unknown">延时 --</span>
        <span class="pill"><strong>已登录</strong></span>
        <span class="pill"><strong>代理可用</strong></span>
        <span class="pill"><strong>页面常驻</strong></span>
      </div>
      <span class="toolbar-divider" aria-hidden="true"></span>
      <button class="icon-btn" type="button" title="后退" aria-label="后退" data-action="navBack"><svg viewBox="0 0 24 24"><path d="M15 18l-6-6 6-6"></path></svg></button>
      <button class="icon-btn" type="button" title="前进" aria-label="前进" data-action="navForward"><svg viewBox="0 0 24 24"><path d="M9 18l6-6-6-6"></path></svg></button>
      <button class="icon-btn" type="button" title="刷新" aria-label="刷新" data-action="reloadActive"><svg viewBox="0 0 24 24"><path d="M21 12a9 9 0 1 1-2.64-6.36"></path><path d="M21 4v6h-6"></path></svg></button>
      <button class="icon-btn" type="button" title="导出 Markdown" aria-label="导出 Markdown" data-action="exportMarkdown"><svg viewBox="0 0 24 24"><path d="M4 4h16v16H4z"></path><path d="M7 16V8l3 4 3-4v8"></path><path d="M17 8v8"></path><path d="M15 14l2 2 2-2"></path></svg></button>
      <button class="icon-btn" type="button" title="导出 PDF" aria-label="导出 PDF" data-action="exportPdf"><svg viewBox="0 0 24 24"><path d="M6 3h9l3 3v15H6z"></path><path d="M14 3v4h4"></path><path d="M8 16h8"></path><path d="M8 12h8"></path></svg></button>
      <button class="icon-btn" type="button" title="下载管理" aria-label="下载管理" data-action="openDownloadManager"><svg viewBox="0 0 24 24"><path d="M12 3v10"></path><path d="M8 9l4 4 4-4"></path><path d="M4 17h16"></path><path d="M6 21h12"></path></svg></button>
      <button class="icon-btn" type="button" title="清理内存" aria-label="清理内存" data-action="optimizeMemory"><svg viewBox="0 0 24 24"><path d="M3 17h18"></path><path d="M5 17l2-10h10l2 10"></path><path d="M8 21h8"></path><path d="M9 7V3h6v4"></path></svg></button>
    </div>
  </header>
  <div class="toast-region" aria-live="polite" aria-atomic="true"></div>
  <script>
    const started = new Set(['"##;

/// Top shell page, part 2.
pub const TOP_SHELL_2: &'static str = r##"']);
    let activeSite = '"##;

/// Top shell page, part 3.
pub const TOP_SHELL_3: &'static str = r##"';
    let requestSeq = 0;
    function sendCommand(type, payload = {}) {
      if (!window.ipc || typeof window.ipc.postMessage !== 'function') return;
      window.ipc.postMessage(JSON.stringify({ id: String(++requestSeq), type, payload }));
    }
    function setActive(site) {
      activeSite = site;
      started.add(site);
      document.querySelectorAll('.tab').forEach(tab => {
        const active = tab.dataset.site === site;
        tab.dataset.active = String(active);
        tab.dataset.started = String(started.has(tab.dataset.site));
      });
    }
    function closeSite(site) {
      if (site === 'chatgpt') return;
      started.delete(site);
      if (activeSite === site) activeSite = 'chatgpt';
      setActive(activeSite);
      sendCommand('closeSite', { site });
    }
    function optimizeMemory() {
      const keep = new Set(['chatgpt', activeSite]);
      [...started].forEach(site => {
        if (!keep.has(site)) started.delete(site);
      });
      setActive(activeSite);
      sendCommand('optimizeMemory');
    }
    function measureActiveLatency() {
      const label = document.querySelector('[data-latency-label]');
      if (label) {
        label.textContent = '延时 ...';
        label.dataset.health = 'unknown';
      }
      sendCommand('measureLatency', { site: activeSite });
    }
    window.__aiClientSyncTabs = (active, loaded) => {
      started.clear();
      (Array.isArray(loaded) ? loaded : ['chatgpt']).forEach(site => started.add(site));
      started.add('chatgpt');
      activeSite = active || 'chatgpt';
      setActive(activeSite);
      measureActiveLatency();
    };
    window.__aiClientUpdateLatency = ({ site, delay_ms, success } = {}) => {
      if (site && site !== activeSite) return;
      const label = document.querySelector('[data-latency-label]');
      if (!label) return;
      if (success && Number.isFinite(delay_ms)) {
        label.textContent = `延时 ${delay_ms}ms`;
        label.dataset.health = delay_ms < 3000 ? 'good' : 'bad';
      } else {
        label.textContent = '延时失败';
        label.dataset.health = 'bad';
      }
    };
    window.__aiClientNotifyDownload = ({ status, path, success } = {}) => {
      const region = document.querySelector('.toast-region');
      if (!region) return;
      const toast = document.createElement('div');
      toast.className = 'toast';
      toast.dataset.success = String(success !== false);
      const title = document.createElement('div');
      title.className = 'toast-title';
      title.textContent = status || '下载状态';
      toast.appendChild(title);
      if (path) {
        const detail = document.createElement('button');
        detail.type = 'button';
        detail.className = 'toast-path';
        detail.dataset.action = 'openDownloadPath';
        detail.dataset.path = path;
        detail.title = path;
        detail.textContent = path;
        detail.addEventListener('click', () => sendCommand('openDownloadPath', { path }));
        toast.appendChild(detail);
      }
      region.appendChild(toast);
      while (region.children.length > 3) region.firstElementChild.remove();
      setTimeout(() => toast.remove(), 5200);
    };
    document.querySelectorAll('.tab').forEach(tab => {
      tab.addEventListener('click', event => {
        if (event.target.closest('.tab-close')) return;
        const site = tab.dataset.site;
        setActive(site);
        sendCommand('switchSite', { site });
        measureActiveLatency();
      });
      tab.addEventListener('keydown', event => {
        if (!['Enter', ' '].includes(event.key)) return;
        event.preventDefault();
        const site = tab.dataset.site;
        setActive(site);
        sendCommand('switchSite', { site });
        measureActiveLatency();
      });
    });
    document.querySelectorAll('.tab-close').forEach(button => {
      button.addEventListener('click', event => {
        event.stopPropagation();
        closeSite(button.dataset.site);
      });
    });
    document.querySelectorAll('.actions [data-action]').forEach(button => {
      button.addEventListener('click', () => {
        if (button.dataset.action === 'optimizeMemory') optimizeMemory();
        else if (button.dataset.action === 'openDownloadManager') sendCommand('openDownloadManager');
        else if (button.dataset.action === 'exportMarkdown') sendCommand('exportConversation', { format: 'markdown' });
        else if (button.dataset.action === 'exportPdf') sendCommand('exportConversation', { format: 'pdf' });
        else sendCommand(button.dataset.action);
      });
    });
    document.addEventListener('keydown', event => {
      if (event.altKey && ['1', '2', '3', '4'].includes(event.key)) {
        const site = ['chatgpt', 'gemini', 'notebooklm', 'aistudio'][Number(event.key) - 1];
        setActive(site);
        sendCommand('switchSite', { site });
        measureActiveLatency();
      }
    });
    setTimeout(measureActiveLatency, 5000);
    setInterval(measureActiveLatency, 60000);
  </script>
</body>
</html>"##;

} // verus!
