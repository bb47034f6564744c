# herdr

The verified core of herdr, a terminal workspace manager whose client shows the
workspaces of several servers in one sidebar and installs, starts and bridges to
servers on other hosts over ssh.

- `src/client`: the client's model of its servers, its routes, its menus and forms.
- `src/remote`: command lines, quoting, ssh calls, socket paths, release manifests,
  and every decision on the way to a usable remote server.
- `src/ui`: the sidebar and the dialogs, as layouts and plans of what is drawn.
- `src/config.rs`, `src/input.rs`, `src/api.rs`, `src/remote_registry.rs`: the plain
  data that these work on.
- `src/text.rs`, `src/lists.rs`: text and lists.
- `app`: files, processes, sockets, JSON and the screen.

Everything in `src` is proved against its contract. What holds across functions is
stated by the proof functions whose names start with `law_`.
