# brain_coordinator

The decision-making core of the AI-OS brain and its desktop companion,
written in Verus so that every rule it applies is checked against its
contract.

- `src/` — the verified library: communication policy and quiet hours,
  observation permissions and change detection, the audit log, the event
  journal and goal scheduler, notifications, the conversation window and
  reply rules, attention outcomes, the planner's prompts and plan handling,
  strategy selection, world-model evolution steps, /proc/meminfo reading,
  the runtime's lifecycle, Telegram bookkeeping, the web
  UI's HTTP layer, privacy (AES-256-GCM through `ring`, backups), memory
  controls, desktop action strategies and verification, and the agent and
  delegation registries. Every public function states what it returns in
  terms of spec functions; the properties that span several calls are
  public proof functions (`lemma_*`).
- `tests/` — tests of the library on concrete values.
- `app/` — the companion program: settings and data files, sockets,
  timers, the Telegram HTTP calls, and the real-valued attention scoring,
  all handing plain values to the library.
