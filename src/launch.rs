use vstd::prelude::*;

verus! {

/// How the editor gets started.
#[derive(Clone, Copy, Debug, PartialEq, Eq, Structural)]
pub enum Launch {
    /// Already inside a multiplexer: run the editor in place.
    RunEditor,
    /// Outside any multiplexer: start a new session that runs the editor.
    NewSession,
}

/// The way to start the editor, given whether the process runs inside
/// tmux (`TMUX` is set) or zellij (`ZELLIJ` is set).
pub fn choose_launch(in_tmux: bool, in_zellij: bool) -> (r: Launch)
    ensures
        r == (if in_tmux || in_zellij {
            Launch::RunEditor
        } else {
            Launch::NewSession
        }),
{
    if in_tmux || in_zellij {
        Launch::RunEditor
    } else {
        Launch::NewSession
    }
}

} // verus!
