//! Command-line options: which flags were given, and where the prefix and the
//! configuration file are.

use vstd::prelude::*;

verus! {

/// The prefix used when none is given on the command line.
pub const DEFAULT_PREFIX: &'static str = "/etc/ftr/";

/// The configuration file's name under the prefix.
pub const DEFAULT_CONF: &'static str = "ftr.conf";

/// The options of a run of the daemon. An empty `prefix` or `conf_file`
/// means that the option was not given.
#[derive(Clone, Debug)]
pub struct Options {
    pub prefix: String,
    pub conf_file: String,
    pub daemon: bool,
    pub test_only: bool,
}

/// What the command line asks for.
#[derive(Clone, Debug)]
pub enum Command {
    /// Print the usage text and exit.
    Usage,
    /// Print the version and exit.
    Version,
    /// Test the configuration, or run the daemon.
    Run(Options),
}

/// A command-line word that is neither a known flag nor an option's value.
#[derive(Clone, Debug)]
pub struct UnknownOption {
    pub arg: String,
}

/// The options as plain values, with the two flags that await a value.
pub struct ScanState {
    pub prefix: Seq<char>,
    pub conf_file: Seq<char>,
    pub daemon: bool,
    pub test_only: bool,
    pub want_prefix: bool,
    pub want_conf: bool,
}

/// Where the scan of the command line stands after some of its words.
pub enum Scan {
    Going(ScanState),
    Usage,
    Version,
    Unknown(Seq<char>),
}

/// A word with its leading dashes removed.
pub open spec fn trim_dashes(s: Seq<char>) -> Seq<char>
    decreases s.len(),
{
    if s.len() > 0 && s[0] == '-' {
        trim_dashes(s.drop_first())
    } else {
        s
    }
}

/// The state before any word is read.
pub open spec fn initial_scan() -> ScanState {
    ScanState {
        prefix: Seq::empty(),
        conf_file: Seq::empty(),
        daemon: false,
        test_only: false,
        want_prefix: false,
        want_conf: false,
    }
}

/// Reads one word. A flag is the word without its leading dashes; the word
/// after `p` or `c` is taken whole as that option's value.
pub open spec fn scan_word(st: ScanState, arg: Seq<char>) -> Scan {
    let opt = trim_dashes(arg);
    if opt == seq!['h'] {
        Scan::Usage
    } else if opt == seq!['v'] {
        Scan::Version
    } else if opt == seq!['t'] {
        Scan::Going(ScanState { test_only: true, ..st })
    } else if opt == seq!['d'] {
        Scan::Going(ScanState { daemon: true, ..st })
    } else if opt == seq!['p'] {
        Scan::Going(ScanState { want_prefix: true, ..st })
    } else if opt == seq!['c'] {
        Scan::Going(ScanState { want_conf: true, ..st })
    } else if st.want_prefix {
        Scan::Going(ScanState { prefix: arg, want_prefix: false, ..st })
    } else if st.want_conf {
        Scan::Going(ScanState { conf_file: arg, want_conf: false, ..st })
    } else {
        Scan::Unknown(arg)
    }
}

/// The scan after the first `n` words; it stops at usage, version or an
/// unknown word.
pub open spec fn scan_words(args: Seq<Seq<char>>, n: nat) -> Scan
    decreases n,
{
    if n == 0 {
        Scan::Going(initial_scan())
    } else {
        match scan_words(args, (n - 1) as nat) {
            Scan::Going(st) => if n <= args.len() {
                scan_word(st, args[n - 1])
            } else {
                Scan::Going(st)
            },
            other => other,
        }
    }
}

/// The words of a command line as sequences of characters.
pub open spec fn words(args: Seq<String>) -> Seq<Seq<char>> {
    args.map_values(|s: String| s@)
}

/// The options that a finished scan stands for.
pub open spec fn options_match(o: Options, st: ScanState) -> bool {
    &&& o.prefix@ == st.prefix
    &&& o.conf_file@ == st.conf_file
    &&& o.daemon == st.daemon
    &&& o.test_only == st.test_only
}

/// What parsing a command line gives, over its words.
pub open spec fn parse_result(args: Seq<Seq<char>>, r: Result<Command, UnknownOption>) -> bool {
    match scan_words(args, args.len()) {
        Scan::Going(st) => r matches Ok(Command::Run(o)) && options_match(o, st),
        Scan::Usage => r matches Ok(Command::Usage),
        Scan::Version => r matches Ok(Command::Version),
        Scan::Unknown(w) => r matches Err(e) && e.arg@ == w,
    }
}

/// The position of the first character of `s` that is not a dash.
fn skip_dashes(s: &str) -> (k: usize)
    ensures
        k <= s@.len(),
        trim_dashes(s@) == s@.subrange(k as int, s@.len() as int),
{
    let n = s.unicode_len();
    let mut i: usize = 0;
    assert(s@.subrange(0, n as int) =~= s@);
    while i < n && s.get_char(i) == '-'
        invariant
            n == s@.len(),
            i <= n,
            trim_dashes(s@) == trim_dashes(s@.subrange(i as int, n as int)),
        decreases n - i,
    {
        let ghost rest = s@.subrange(i as int, n as int);
        assert(rest.drop_first() =~= s@.subrange(i + 1, n as int));
        i = i + 1;
    }
    let ghost rest = s@.subrange(i as int, n as int);
    assert(rest.len() == 0 || rest[0] != '-');
    i
}

/// Whether `opt` is the single character `c`.
fn is_flag(opt: &str, c: char) -> (r: bool)
    ensures
        r == (opt@ == seq![c]),
{
    if opt.unicode_len() == 1 {
        let first = opt.get_char(0);
        assert(first == c ==> opt@ =~= seq![c]);
        first == c
    } else {
        false
    }
}

/// Reads the command line's words (the program's name left out) from left to
/// right. `h` and `v` end the reading at once; a word that is neither a flag
/// nor the value that `p` or `c` awaits is refused.
pub fn parse_opts(args: &Vec<String>) -> (r: Result<Command, UnknownOption>)
    ensures
        parse_result(words(args@), r),
{
    let ghost w = words(args@);
    let mut prefix = String::new();
    let mut conf_file = String::new();
    let mut daemon = false;
    let mut test_only = false;
    let mut want_prefix = false;
    let mut want_conf = false;
    let mut i: usize = 0;
    while i < args.len()
        invariant
            i <= args.len(),
            w == words(args@),
            scan_words(w, i as nat) == Scan::Going(
                ScanState { prefix: prefix@, conf_file: conf_file@, daemon, test_only, want_prefix, want_conf },
            ),
        decreases args.len() - i,
    {
        let ghost st = ScanState { prefix: prefix@, conf_file: conf_file@, daemon, test_only, want_prefix, want_conf };
        let arg: &String = &args[i];
        let word: &str = arg.as_str();
        assert(w[i as int] == arg@);
        let k = skip_dashes(word);
        let opt = word.substring_char(k, word.unicode_len());
        assert(scan_words(w, (i + 1) as nat) == scan_word(st, arg@));
        if is_flag(opt, 'h') {
            proof { lemma_scan_stops(w, (i + 1) as nat); }
            return Ok(Command::Usage);
        } else if is_flag(opt, 'v') {
            proof { lemma_scan_stops(w, (i + 1) as nat); }
            return Ok(Command::Version);
        } else if is_flag(opt, 't') {
            test_only = true;
        } else if is_flag(opt, 'd') {
            daemon = true;
        } else if is_flag(opt, 'p') {
            want_prefix = true;
        } else if is_flag(opt, 'c') {
            want_conf = true;
        } else if want_prefix {
            prefix = arg.clone();
            want_prefix = false;
        } else if want_conf {
            conf_file = arg.clone();
            want_conf = false;
        } else {
            proof { lemma_scan_stops(w, (i + 1) as nat); }
            return Err(UnknownOption { arg: arg.clone() });
        }
        i = i + 1;
    }
    Ok(Command::Run(Options { prefix, conf_file, daemon, test_only }))
}

/// Once the scan has stopped, later words change nothing.
proof fn lemma_scan_stops(args: Seq<Seq<char>>, n: nat)
    requires
        n <= args.len(),
        !(scan_words(args, n) is Going),
    ensures
        scan_words(args, args.len()) == scan_words(args, n),
    decreases args.len() - n,
{
    if n < args.len() {
        assert(scan_words(args, n + 1) == scan_words(args, n));
        lemma_scan_stops(args, n + 1);
    }
}

/// The prefix with a path separator at its end.
pub open spec fn with_separator(p: Seq<char>) -> Seq<char> {
    if p.len() > 0 && p.last() == '/' {
        p
    } else {
        p.push('/')
    }
}

/// The prefix in use: the one given, else the default, always ending with a separator.
pub open spec fn prefix_of(given: Seq<char>) -> Seq<char> {
    with_separator(if given.len() > 0 { given } else { DEFAULT_PREFIX@ })
}

/// The configuration file in use: the one given, else the default one under the prefix.
pub open spec fn conf_file_of(prefix: Seq<char>, conf_file: Seq<char>) -> Seq<char> {
    if conf_file.len() > 0 {
        conf_file
    } else {
        prefix_of(prefix) + DEFAULT_CONF@
    }
}

/// Where the daemon looks for its files.
#[derive(Clone, Debug)]
pub struct Paths {
    pub prefix: String,
    pub conf_file: String,
}

/// Resolves the prefix and the configuration file's location from the options.
pub fn resolve_paths(opts: &Options) -> (r: Paths)
    ensures
        r.prefix@ == prefix_of(opts.prefix@),
        r.conf_file@ == conf_file_of(opts.prefix@, opts.conf_file@),
{
    let ghost base = if opts.prefix@.len() > 0 { opts.prefix@ } else { DEFAULT_PREFIX@ };
    let mut prefix = if opts.prefix.as_str().unicode_len() > 0 {
        opts.prefix.clone()
    } else {
        String::from_str(DEFAULT_PREFIX)
    };
    let n = prefix.as_str().unicode_len();
    if n == 0 || prefix.as_str().get_char(n - 1) != '/' {
        proof { reveal_strlit("/"); }
        prefix.append("/");
        assert(prefix@ =~= base.push('/'));
    }
    let conf_file = if opts.conf_file.as_str().unicode_len() > 0 {
        opts.conf_file.clone()
    } else {
        prefix.clone().concat(DEFAULT_CONF)
    };
    Paths { prefix, conf_file }
}

} // verus!
