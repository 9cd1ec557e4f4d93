//! Command lines: the program to start and its arguments.
//!
//! A [`CommandSpec`] only describes a command. Whoever launches it passes the
//! arguments on as they are and captures both output streams of the child.

use vstd::prelude::*;
use vstd::string::StringExecFns;

verus! {

/// A program and the arguments it is started with, in order.
#[derive(Clone, Debug, PartialEq, Eq)]
pub struct CommandSpec {
    pub program: String,
    pub args: Vec<String>,
}

/// The mathematical value of a [`CommandSpec`].
pub ghost struct CommandSpecView {
    pub program: Seq<char>,
    pub args: Seq<Seq<char>>,
}

impl View for CommandSpec {
    type V = CommandSpecView;

    open spec fn view(&self) -> CommandSpecView {
        CommandSpecView {
            program: self.program@,
            args: Seq::new(self.args@.len(), |i: int| self.args@[i]@),
        }
    }
}

impl CommandSpec {
    /// A command that starts `program` without arguments.
    pub fn new(program: &str) -> (command: CommandSpec)
        ensures
            command@ == (CommandSpecView { program: program@, args: Seq::empty() }),
    {
        let command = CommandSpec { program: program.to_owned(), args: Vec::new() };
        assert(command@.args =~= Seq::empty());
        command
    }

    /// The same command with `value` added as its last argument.
    pub fn arg(self, value: &str) -> (command: CommandSpec)
        ensures
            command@ == (CommandSpecView { args: self@.args.push(value@), ..self@ }),
    {
        let mut command = self;
        command.args.push(value.to_owned());
        assert(command@.args =~= self@.args.push(value@));
        command
    }
}

/// Looks for `brew` on the search path; prints its path if it is there.
pub open spec fn homebrew_probe_view() -> CommandSpecView {
    CommandSpecView { program: "sh"@, args: seq!["-c"@, "command -v brew"@] }
}

/// Lists the installed versions of gstreamer; prints nothing if there is none.
pub open spec fn gstreamer_probe_view() -> CommandSpecView {
    CommandSpecView { program: "brew"@, args: seq!["ls"@, "--versions"@, "gstreamer"@] }
}

/// Runs the Homebrew installer with the system's Ruby.
pub open spec fn install_homebrew_view() -> CommandSpecView {
    CommandSpecView {
        program: "/usr/bin/ruby"@,
        args: seq![
            "-e"@,
            "$(curl -fsSL https://raw.githubusercontent.com/Homebrew/install/master/install)"@,
        ],
    }
}

/// Runs the Homebrew uninstaller with the Ruby on the search path.
pub open spec fn uninstall_homebrew_view() -> CommandSpecView {
    CommandSpecView {
        program: "ruby"@,
        args: seq![
            "-e"@,
            "$(curl -fsSL https://raw.githubusercontent.com/Homebrew/install/master/uninstall)"@,
        ],
    }
}

/// Installs gstreamer with its plugin sets, codec library and RTSP server.
pub open spec fn install_gstreamer_view() -> CommandSpecView {
    CommandSpecView {
        program: "brew"@,
        args: seq![
            "install"@,
            "gstreamer"@,
            "gst-plugins-base"@,
            "gst-plugins-good"@,
            "gst-plugins-bad"@,
            "gst-plugins-ugly"@,
            "gst-libav"@,
            "gst-rtsp-server"@,
            "--with-orc"@,
            "-with-libogg"@,
            "--with-opus"@,
            "--with-pango"@,
            "--with-theora"@,
            "--with-libvorbis"@,
        ],
    }
}

/// Removes gstreamer and what was installed with it, dependants or not.
pub open spec fn uninstall_gstreamer_view() -> CommandSpecView {
    CommandSpecView {
        program: "brew"@,
        args: seq![
            "uninstall"@,
            "gstreamer"@,
            "gst-plugins-base"@,
            "gst-plugins-good"@,
            "gst-plugins-bad"@,
            "gst-plugins-ugly"@,
            "gst-libav"@,
            "gst-rtsp-server"@,
            "--force"@,
        ],
    }
}

/// The command [`homebrew_probe_view`].
pub fn homebrew_probe() -> (command: CommandSpec)
    ensures
        command@ == homebrew_probe_view(),
{
    let command = CommandSpec::new("sh").arg("-c").arg("command -v brew");
    assert(command@.args =~= homebrew_probe_view().args);
    command
}

/// The command [`gstreamer_probe_view`].
pub fn gstreamer_probe() -> (command: CommandSpec)
    ensures
        command@ == gstreamer_probe_view(),
{
    let command = CommandSpec::new("brew").arg("ls").arg("--versions").arg("gstreamer");
    assert(command@.args =~= gstreamer_probe_view().args);
    command
}

/// The command [`install_homebrew_view`].
pub fn install_homebrew() -> (command: CommandSpec)
    ensures
        command@ == install_homebrew_view(),
{
    let command = CommandSpec::new("/usr/bin/ruby").arg("-e").arg(
        "$(curl -fsSL https://raw.githubusercontent.com/Homebrew/install/master/install)",
    );
    assert(command@.args =~= install_homebrew_view().args);
    command
}

/// The command [`uninstall_homebrew_view`].
pub fn uninstall_homebrew() -> (command: CommandSpec)
    ensures
        command@ == uninstall_homebrew_view(),
{
    let command = CommandSpec::new("ruby").arg("-e").arg(
        "$(curl -fsSL https://raw.githubusercontent.com/Homebrew/install/master/uninstall)",
    );
    assert(command@.args =~= uninstall_homebrew_view().args);
    command
}

/// The command [`install_gstreamer_view`].
pub fn install_gstreamer() -> (command: CommandSpec)
    ensures
        command@ == install_gstreamer_view(),
{
    let command = CommandSpec::new("brew")
        .arg("install")
        .arg("gstreamer")
        .arg("gst-plugins-base")
        .arg("gst-plugins-good")
        .arg("gst-plugins-bad")
        .arg("gst-plugins-ugly")
        .arg("gst-libav")
        .arg("gst-rtsp-server")
        .arg("--with-orc")
        .arg("-with-libogg")
        .arg("--with-opus")
        .arg("--with-pango")
        .arg("--with-theora")
        .arg("--with-libvorbis");
    assert(command@.args =~= install_gstreamer_view().args);
    command
}

/// The command [`uninstall_gstreamer_view`].
pub fn uninstall_gstreamer() -> (command: CommandSpec)
    ensures
        command@ == uninstall_gstreamer_view(),
{
    let command = CommandSpec::new("brew")
        .arg("uninstall")
        .arg("gstreamer")
        .arg("gst-plugins-base")
        .arg("gst-plugins-good")
        .arg("gst-plugins-bad")
        .arg("gst-plugins-ugly")
        .arg("gst-libav")
        .arg("gst-rtsp-server")
        .arg("--force");
    assert(command@.args =~= uninstall_gstreamer_view().args);
    command
}

/// Asks Homebrew for the formulae whose name holds "gstreamer".
pub fn search_gstreamer() -> (command: CommandSpec)
    ensures
        command@ == (CommandSpecView { program: "brew"@, args: seq!["search"@, "gstreamer"@] }),
{
    let command = CommandSpec::new("brew").arg("search").arg("gstreamer");
    assert(command@.args =~= seq!["search"@, "gstreamer"@]);
    command
}

/// Has the shell echo `text`. The text reaches the shell as it is, so the
/// shell splits and expands it.
pub fn echo(text: &str) -> (command: CommandSpec)
    ensures
        command@ == (CommandSpecView { program: "sh"@, args: seq!["-c"@, "echo "@ + text@] }),
{
    let script = "echo ".to_owned().concat(text);
    let command = CommandSpec::new("sh").arg("-c").arg(script.as_str());
    assert(command@.args =~= seq!["-c"@, "echo "@ + text@]);
    command
}

/// The line that reports what an echo printed.
pub fn echo_report(output: &str) -> (report: String)
    ensures
        report@ == "stdout: "@ + output@,
{
    "stdout: ".to_owned().concat(output)
}

} // verus!
