# uiautomator

Android UI automation over ADB and the device-side UiAutomator JSON-RPC
service, in the style of Python's `uiautomator2`.

- `src/` is the verified library: selectors and their JSON parameters, key
  codes, settings, the error codes, shell_v2 output decoding, and every
  decision taken on what the device answers (`am start`, `pm`, `pidof`,
  `dumpsys` output, JSON-RPC replies, retries, ATX-Agent answers and
  binaries, screenshots), the routing of a connection by its server mode,
  and the device-information cache. Each public function states its result in its
  contract; the proof functions state the laws that hold across calls.
- `app/` holds the asynchronous I/O around it: the ADB session, HTTP,
  timers, and the serde forms of the library's types.
- `tests/` runs the library on concrete inputs.

The daemon binaries, APKs and server jar that a device set-up pushes are
read at run time from the directories named by `UIAUTOMATOR_ATX_AGENT_DIR`,
`UIAUTOMATOR_APK_DIR` and `UIAUTOMATOR_U2_JAR` (with
`UIAUTOMATOR_U2_JAR_MD5`).
