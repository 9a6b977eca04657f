use vstd::prelude::*;

use crate::client::{step_begin, Client};
use crate::error::Error;
use crate::rpc::Message;
use crate::text::{dec_digits, is_blank, parses_as_u16, trim, trim_blank, trim_quotes, format_u16, parse_u16};
use crate::value::Val;

verus! {

/// The port used when the host names none (or an unusable one).
pub const DEFAULT_PORT: u16 = 3008;

/// What the browser and port settings read from the host boil down to.
#[derive(Debug, Clone, PartialEq, Eq)]
pub struct PreviewerConfig {
    /// The browser command to open the preview with; `None` opens the
    /// system default.
    pub browser: Option<String>,
    /// The TCP port of the preview server.
    pub port: u16,
}

/// The port a setting string selects: its trimmed text, when it parses as
/// a number above 1024; every other setting keeps the default.
pub open spec fn chosen_port(port: Seq<char>) -> u16 {
    match parses_as_u16(trim(port, |c: char| is_blank(c))) {
        Some(p) => if p > 1024 {
            p
        } else {
            DEFAULT_PORT
        },
        None => DEFAULT_PORT,
    }
}

impl PreviewerConfig {
    /// Reads the two settings: a browser name is kept once trimmed of
    /// whitespace (an empty one means the system default), and the port
    /// must parse as a number above 1024, else the default stands.
    pub fn new(browser: &str, port: &str) -> (r: PreviewerConfig)
        ensures
            match r.browser {
                None => trim(browser@, |c: char| is_blank(c)).len() == 0,
                Some(b) => b@ == trim(browser@, |c: char| is_blank(c)) && b@.len() > 0,
            },
            r.port == chosen_port(port@),
    {
        let browser = trim_blank(browser);
        let port = trim_blank(port);
        let browser = if browser.unicode_len() > 0 {
            Some(browser)
        } else {
            None
        };
        let port = match parse_u16(port.as_str()) {
            Some(p) => if p > 1024 {
                p
            } else {
                DEFAULT_PORT
            },
            None => DEFAULT_PORT,
        };
        PreviewerConfig { browser, port }
    }
}

impl Default for PreviewerConfig {
    /// No browser named, the default port.
    fn default() -> (r: PreviewerConfig)
        ensures
            r.browser is None,
            r.port == DEFAULT_PORT,
    {
        PreviewerConfig { browser: None, port: DEFAULT_PORT }
    }
}

/// What one preview event asks the surrounding program to do.
#[derive(Debug, PartialEq)]
pub enum EventOutcome {
    /// Serve `file_path`, style it with `css_path`, and open the browser.
    Preview { file_path: String, css_path: String },
    /// The event named no file to preview.
    NoFilePath,
    /// The event named no plugin script directory.
    NoScriptDir,
}

/// The stylesheet file name an event selects.
pub open spec fn css_name(event: Seq<char>) -> Seq<char> {
    if event == "preview_alt"@ {
        "/nvim-previewer-alt.css"@
    } else {
        "/nvim-previewer-default.css"@
    }
}

/// The previewer session: the correlation engine for the host connection,
/// the settings read from the host, and the directories derived from the
/// host's cache path.
pub struct Previewer {
    /// The engine speaking to the host process.
    pub client: Client,
    pub config: PreviewerConfig,
    /// Where this plugin keeps its cached files.
    pub cachedir: String,
    /// Where the logs go.
    pub logdir: String,
}

impl Previewer {
    /// Assembles a session from the engine and the three strings read
    /// from the host: its cache path and the two settings.
    pub fn new(client: Client, cache_base: &str, browser: &str, port: &str) -> (r: Previewer)
        ensures
            r.client == client,
            match r.config.browser {
                None => trim(browser@, |c: char| is_blank(c)).len() == 0,
                Some(b) => b@ == trim(browser@, |c: char| is_blank(c)) && b@.len() > 0,
            },
            r.config.port == chosen_port(port@),
            r.cachedir@ == cache_base@ + "/nvim-previewer"@,
            r.logdir@ == cache_base@ + "/nvim-previewer"@ + "/logs"@,
    {
        let config = PreviewerConfig::new(browser, port);
        let mut cachedir = cache_base.to_owned();
        cachedir.append("/nvim-previewer");
        let mut logdir = cachedir.clone();
        logdir.append("/logs");
        Previewer { client, config, cachedir, logdir }
    }

    /// The address the preview server answers on, on the loopback host.
    pub fn preview_url(&self) -> (r: String)
        ensures
            r@ == "http://127.0.0.1:"@ + dec_digits(self.config.port as int),
    {
        let mut url = String::new();
        url.append("http://127.0.0.1:");
        let digits = format_u16(self.config.port);
        url.append(digits.as_str());
        proof {
            assert(url@ =~= "http://127.0.0.1:"@ + dec_digits(self.config.port as int));
        }
        url
    }

    /// Begins an expression-evaluation call on the host: reserves a call
    /// id and hands back the request frame to write, exactly as
    /// `Client::begin_call` does for the `nvim_eval` method with the
    /// expression as its single argument.
    pub fn eval(&mut self, expr: &str) -> (r: Result<(u64, Message), Error>)
        requires
            old(self).client@.wf(),
            old(self).client@.next_msgid < u64::MAX,
        ensures
            final(self).config == old(self).config,
            final(self).cachedir == old(self).cachedir,
            final(self).logdir == old(self).logdir,
            final(self).client@.wf(),
            old(self).client@.closed ==> final(self).client@ == old(self).client@ && r == Err::<
                (u64, Message),
                Error,
            >(Error::Delivery),
            !old(self).client@.closed ==> {
                &&& final(self).client@ == step_begin(old(self).client@)
                &&& r matches Ok(p)
                &&& p.0 == old(self).client@.next_msgid
                &&& p.1 matches Message::Request { msgid, method, params }
                &&& msgid == p.0
                &&& method@ == "nvim_eval"@
                &&& params@.len() == 1
                &&& params@[0] matches Val::Str(e) && e@ == expr@
            },
    {
        let mut params: Vec<Val> = Vec::new();
        params.push(Val::Str(expr.to_owned()));
        self.client.begin_call("nvim_eval".to_owned(), params)
    }

    /// Begins a call that prints a message in the host: the `nvim_command`
    /// method, handed an `echo` command quoting the message.
    pub fn print(&mut self, msg: &str) -> (r: Result<(u64, Message), Error>)
        requires
            old(self).client@.wf(),
            old(self).client@.next_msgid < u64::MAX,
        ensures
            final(self).config == old(self).config,
            final(self).cachedir == old(self).cachedir,
            final(self).logdir == old(self).logdir,
            final(self).client@.wf(),
            old(self).client@.closed ==> final(self).client@ == old(self).client@ && r == Err::<
                (u64, Message),
                Error,
            >(Error::Delivery),
            !old(self).client@.closed ==> {
                &&& final(self).client@ == step_begin(old(self).client@)
                &&& r matches Ok(p)
                &&& p.0 == old(self).client@.next_msgid
                &&& p.1 matches Message::Request { msgid, method, params }
                &&& msgid == p.0
                &&& method@ == "nvim_command"@
                &&& params@.len() == 1
                &&& params@[0] matches Val::Str(c) && c@ == "echo '"@ + msg@ + "'"@
            },
    {
        let mut command = String::new();
        command.append("echo '");
        command.append(msg);
        command.append("'");
        let mut params: Vec<Val> = Vec::new();
        params.push(Val::Str(command));
        self.client.begin_call("nvim_command".to_owned(), params)
    }

    /// Takes the oldest inbound notification not yet consumed, in arrival
    /// order, as `Client::next_notification` does.
    pub fn recv(&mut self) -> (r: Option<(String, Vec<Val>)>)
        ensures
            final(self).config == old(self).config,
            final(self).cachedir == old(self).cachedir,
            final(self).logdir == old(self).logdir,
            final(self).client@.next_msgid == old(self).client@.next_msgid,
            final(self).client@.pending == old(self).client@.pending,
            final(self).client@.closed == old(self).client@.closed,
            old(self).client@.notes.len() == 0 ==> r is None && final(self).client@ == old(
                self,
            ).client@,
            old(self).client@.notes.len() > 0 ==> r == Some(old(self).client@.notes[0])
                && final(self).client@.notes == old(self).client@.notes.drop_first(),
    {
        self.client.next_notification()
    }

    /// Reads one preview event: its first parameter must name the file to
    /// preview and its second the plugin's script directory, both as
    /// strings; the event name picks the stylesheet, the alternative one
    /// for `preview_alt`, the default one for every other event.
    pub fn handle_event(&self, event: &str, params: &Vec<Val>) -> (r: EventOutcome)
        ensures
            match r {
                EventOutcome::NoFilePath => params@.len() < 1 || !(params@[0] is Str),
                EventOutcome::NoScriptDir => params@.len() >= 1 && params@[0] is Str && (
                params@.len() < 2 || !(params@[1] is Str)),
                EventOutcome::Preview { file_path, css_path } => {
                    &&& params@.len() >= 2
                    &&& params@[0] matches Val::Str(f) && file_path@ == f@
                    &&& params@[1] matches Val::Str(d) && css_path@ == d@ + css_name(event@)
                },
            },
    {
        if params.len() < 1 {
            return EventOutcome::NoFilePath;
        }
        let file_path = match params[0].as_str() {
            Some(f) => f.to_owned(),
            None => {
                return EventOutcome::NoFilePath;
            },
        };
        if params.len() < 2 {
            return EventOutcome::NoScriptDir;
        }
        let mut css_path = match params[1].as_str() {
            Some(d) => d.to_owned(),
            None => {
                return EventOutcome::NoScriptDir;
            },
        };
        if event.to_owned() == "preview_alt".to_owned() {
            css_path.append("/nvim-previewer-alt.css");
        } else {
            css_path.append("/nvim-previewer-default.css");
        }
        EventOutcome::Preview { file_path, css_path }
    }
}

/// The plain text an evaluation reply carries: strings are stripped of
/// surrounding quotes, integers and booleans are written out, nil reads
/// `nil`. Every other shape — floats, which this library holds only as
/// bit patterns, and composite values — yields the empty string, which
/// callers treat as no answer.
pub fn eval_text(v: Val) -> (r: String)
    ensures
        match v {
            Val::Str(s) => r@ == trim(s@, |c: char| crate::text::is_quote(c)),
            Val::UInt(n) => r@ == dec_digits(n as int),
            Val::Int(n) => r@ == (if n >= 0 {
                dec_digits(n as int)
            } else {
                "-"@ + dec_digits(-(n as int))
            }),
            Val::Bool(b) => r@ == (if b {
                "true"@
            } else {
                "false"@
            }),
            Val::Nil => r@ == "nil"@,
            _ => true,
        },
{
    match v {
        Val::Str(s) => trim_quotes(s.as_str()),
        Val::UInt(n) => format_u64(n),
        Val::Int(n) => {
            if n >= 0 {
                format_u64(n as u64)
            } else {
                let magnitude = (-(n as i128)) as u64;
                let mut text = String::new();
                text.append("-");
                text.append(format_u64(magnitude).as_str());
                proof {
                    assert(text@ =~= "-"@ + dec_digits(-(n as int)));
                }
                text
            }
        },
        Val::Bool(b) => {
            if b {
                "true".to_owned()
            } else {
                "false".to_owned()
            }
        },
        Val::Nil => "nil".to_owned(),
        _ => String::new(),
    }
}

/// Writes a large number in decimal, most significant digit first.
fn format_u64(n: u64) -> (r: String)
    ensures
        r@ == dec_digits(n as int),
    decreases n,
{
    if n < 10 {
        let d = format_u16(n as u16);
        proof {
            assert(dec_digits(n as int) == dec_digits(n as u16 as int));
        }
        d
    } else {
        let mut head = format_u64(n / 10);
        head.append(format_u16((n % 10) as u16).as_str());
        proof {
            assert(head@ =~= dec_digits(n as int));
        }
        head
    }
}

} // verus!
