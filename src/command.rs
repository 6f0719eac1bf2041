use vstd::prelude::*;

verus! {

/// An operating-system command to run: a program name and its arguments.
pub struct ExternalCommand {
    pub program: String,
    pub args: Vec<String>,
}

impl ExternalCommand {
    /// The program name as characters.
    pub open spec fn program_view(&self) -> Seq<char> {
        self.program@
    }

    /// The arguments, each as characters.
    pub open spec fn args_view(&self) -> Seq<Seq<char>> {
        self.args.deep_view()
    }
}

/// The platforms whose process and shell behaviour differ.
#[derive(Clone, Copy, Debug, PartialEq, Eq, Structural)]
pub enum Platform {
    Windows,
    MacOs,
    Linux,
}


/// The command that shows `path` selected in the platform's file manager.
pub open spec fn reveal_spec(p: Platform, path: Seq<char>) -> (Seq<char>, Seq<Seq<char>>) {
    match p {
        Platform::Windows => ("explorer"@, seq!["/select,"@, path]),
        Platform::MacOs => ("open"@, seq!["-R"@, path]),
        Platform::Linux => ("xdg-open"@, seq![path]),
    }
}

/// Builds the command that reveals `path` in the file manager of `platform`.
pub fn reveal_command(platform: Platform, path: &str) -> (r: ExternalCommand)
    ensures
        (r.program_view(), r.args_view()) == reveal_spec(platform, path@),
{
    let mut args: Vec<String> = Vec::new();
    let program = match platform {
        Platform::Windows => {
            args.push(String::from_str("/select,"));
            String::from_str("explorer")
        },
        Platform::MacOs => {
            args.push(String::from_str("-R"));
            String::from_str("open")
        },
        Platform::Linux => String::from_str("xdg-open"),
    };
    args.push(String::from_str(path));
    assert(args.deep_view() =~= reveal_spec(platform, path@).1);
    ExternalCommand { program, args }
}

} // verus!
