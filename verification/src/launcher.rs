use vstd::prelude::*;

verus! {

/// The editor invocation the launcher builds: the binary name, resolved via
/// PATH, and its argument list.
#[derive(Clone, Debug, PartialEq)]
pub struct EditorInvocation {
    pub program: String,
    pub args: Vec<String>,
}

/// Build the editor's invocation: the `nvim` binary with the embedding flag
/// first, then every argument the host was given, verbatim and in order.
pub fn editor_invocation(forwarded: Vec<String>) -> (inv: EditorInvocation)
    ensures
        inv.program@ == "nvim"@,
        inv.args@.len() == forwarded@.len() + 1,
        inv.args@[0]@ == "--embed"@,
        forall|i: int| 0 <= i < forwarded@.len() ==> inv.args@[i + 1] == forwarded@[i],
{
    let mut forwarded = forwarded;
    let mut args: Vec<String> = Vec::new();
    args.push("--embed".to_owned());
    args.append(&mut forwarded);
    EditorInvocation { program: "nvim".to_owned(), args }
}

} // verus!
