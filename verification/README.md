# EasyGPT client library

A desktop client that gathers ChatGPT, Gemini, NotebookLM and Google AI
Studio in one window and routes only its own traffic through a bundled
mihomo (Clash.Meta) proxy.

`src/` is the verified library, checked with Verus. It holds the rules of the
client: the settings and their normalisation, the proxy endpoints, the ports
and subscription handling of the proxy runtime, the sanitised mihomo
configuration, the choice and repair of proxy nodes, the download history,
the file names of downloads and exports, the PDF and Markdown exports, the
IPC messages of the pages and their answers, and the pages and scripts that
the web views show.

- `settings.rs`, `site.rs`: settings, proxy endpoints, sites, start-up stages.
- `clash.rs`, `controller.rs`, `repair.rs`: the proxy runtime, the
  controller's answers, node selection and repair.
- `downloads.rs`, `filenames.rs`, `export.rs`, `pdf.rs`: downloads and exports.
- `shell.rs`, `ipc.rs`, `pages.rs`, `templates.rs`: messages, routing, pages.
- `json.rs`, `yaml.rs`, `jsontext.rs`, `text.rs`: parsed documents and text.

`app/` is the program around it: windows and web views (`tao`, `wry`), files,
HTTP (`reqwest`), the mihomo process, and the serde copies of the library's
types. `tests/` exercises the library on concrete values.
