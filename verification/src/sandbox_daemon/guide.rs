//! What callers are told of the sandbox functions.

use vstd::prelude::*;

verus! {

/// A cheatsheet for the system prompts of agents: which function to call
/// first, how to pass commands and variables, and what the codes mean.
pub const SANDBOX_AGENT_GUIDE: &'static str = r#"
You have access to the iii sandbox::* tools. Use them to run code in an
isolated microVM and capture stdout/stderr.

# Workflow

The fastest path is one call to `sandbox::run`:

  sandbox::run({
    image: "node",                 // or "python", or any custom_images key
    code: "console.log('hello')",  // your code, written to /tmp/run.{ext}
    lang: "node",                  // "node" | "python" | "shell" | <binary>
    env: { "NODE_ENV": "production" }
    // timeout_ms defaults to 300_000 (5 min) — set explicitly only for
    // probes or to override for very long builds.
  })

sandbox::run auto-stops the VM on success AND on failure. Set
`keep_sandbox: true` to keep the VM alive (returns sandbox_id).

# Surgical workflow

  sandbox::create({ image: "node" }) -> { sandbox_id }
  sandbox::fs::write({ sandbox_id, path, content })  // content is a UTF-8 string
  sandbox::exec({ sandbox_id, cmd, args })           // see cmd shapes below
  sandbox::stop({ sandbox_id })

# sandbox::exec cmd shapes (all three accepted)

  { cmd: "node /home/app/main.js" }                 // shell-line, shlex-split
  { cmd: "node", args: ["/home/app/main.js"] }      // classic POSIX
  { argv: ["node", "/home/app/main.js"] }           // argv array

Shlex is NOT bash. For bash semantics use sandbox::run with lang:"shell".

# env shapes

  { env: ["FOO=bar", "PATH=/usr/bin"] }              // wire shape
  { env: { "FOO": "bar", "PATH": "/usr/bin" } }      // map shape

# Errors

Errors return JSON encoded inside error.message. Parse once:

  const detail = JSON.parse(err.message);
  // detail.code, detail.type, detail.message, detail.docs_url
  // detail.fix       ready-to-send next-call payload (null if not auto-fixable)
  // detail.fix_note  one-liner explaining why fix is null
  // detail.retryable bool

If detail.fix is non-null, your next call is fn(detail.fix).

# S-code map

  S001 validation       request shape error
  S002 sandbox missing  call sandbox::create first
  S003 concurrent exec  one exec at a time per sandbox; detach servers (nohup &) or stop+recreate (waiting won't free a foreground exec)
  S100 image catalog    pick "python" or "node" (call sandbox::catalog::list for custom_images keys)
  S200 exec timeout     raise timeout_ms
  S211 file not found    (parent-missing variants carry fix:{parents:true})
  S215 permission denied
  S300 VM boot failed   platform / virtualization issue
  S400 capacity         resource cap reached
"#;

} // verus!
