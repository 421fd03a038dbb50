# xokdinst

`xokdinst` wraps the OpenShift installer. It keeps one directory per cluster and
a set of base configurations under the user's configuration directory.

The library decides; the application acts. Each command (`launch`, `destroy`,
`gen-config`) is a state that, given the answer to what it asked last, turns into
its next state and what it asks next. `app/` does what is asked and hands back the
answer.

- `src/` is the library, verified with Verus.
  - `dialogue` holds what a command may ask and be answered; `launch`, `destroy`
    and `generate` are the commands. `launch_laws` and `launch_run` state what
    holds of every launch, and how a whole launch ends.
  - `names`, `place` and `platform` are about the names of files, directories and
    platforms; `options` holds the options of the commands.
  - `install_config` is about the installer's configuration, `host` about the
    share of the host that a libvirt machine gets, `installer` about how the
    installer is called, `release` about release streams.
  - `config`, `manifests` and `json` make the manifests that are added to the
    installer's own.
  - `failure` and `listing` hold all that is told to the user; `text` has string
    helpers.
- `tests/` are tests of the library as it is compiled.
- `app/` is the command line, the files, the network and the installer's process.

Calls into other crates are behind small functions whose contracts are believed;
each says in its comment what it claims.
