# tinybox

A workspace containerization runtime: tinybox encapsulates a *box*, an isolated
place where code runs, and makes the isolation something a caller can inspect
before relying on it.

The library decides; it touches nothing. What a command does, what a sandbox
asks of its host, how the records on disk are replaced and how a port forward
comes up are all verified functions from what has been answered so far to what
to do next. `app/` is the program around them: it parses arguments, spawns
processes, and reads and writes files.

```text
loop {
    match run(&cli, &replies) {
        Running::Ask(effect) => replies.push(perform(effect)),
        Running::Exit(code, said) => return (code, said),
    }
}
```

## Layout

| Module | What it holds |
| --- | --- |
| `text`, `number`, `path`, `ordered` | strings, decimal numbers, paths, and a map ordered by name |
| `identity` | validated names of boxes, snapshots, hosts and sandboxes |
| `capability` | what a sandbox declares, and the floor for untrusted code |
| `box_spec` | what a box is to be |
| `error` | everything that goes wrong, and how it is said |
| `conversation` | effects, replies, and how far an operation has come |
| `runtime` | boxes, requests and outputs; the `Host` and `Sandbox` traits |
| `shell` | quoting, and what a shell reads of it |
| `local`, `ssh`, `forward` | reach: this machine, another one, and its ports |
| `passthrough`, `docker`, `backend` | confinement: none, containers, and which by name |
| `store`, `file_store` | which boxes exist, in memory and on disk |
| `command` | what each command does |
| `session` | what whole invocations come to |
| `module` | what tinybox says of itself on a bus |

Properties that span several functions are public proof functions beside what
they are about; those of whole invocations are in `session`.

## What is taken on trust

A few functions of the standard library are called through declarations whose
contracts are not proved: appending a character to a string, reading bytes as
text, showing text between quotation marks, and joining paths and taking them
apart. Each says so in its doc comment.
