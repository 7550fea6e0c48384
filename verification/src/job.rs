//! The options of one re-mapping, read from the command line.

use vstd::prelude::*;

verus! {

/// The characters of each argument.
pub open spec fn words(args: Seq<String>) -> Seq<Seq<char>> {
    args.map_values(|a: String| a@)
}

/// The argument behind the first one that is `name`.
pub open spec fn opt_spec(args: Seq<Seq<char>>, name: Seq<char>) -> Option<Seq<char>> {
    match args.index_of_first(name) {
        Some(i) => if i + 1 < args.len() {
            Some(args[i + 1])
        } else {
            None
        },
        None => None,
    }
}

/// A value that an option may give, or the one that holds without it.
pub open spec fn or_default(found: Option<Seq<char>>, default: Seq<char>) -> Seq<char> {
    match found {
        Some(s) => s,
        None => default,
    }
}

/// The position of the first argument that is `name`.
fn position(args: &[String], name: &str) -> (r: Option<usize>)
    ensures
        match r {
            Some(i) => words(args@).index_of_first(name@) == Some(i as int),
            None => words(args@).index_of_first(name@) is None,
        },
{
    let wanted: String = name.to_owned();
    let mut i: usize = 0;
    while i < args.len()
        invariant
            i <= args.len(),
            wanted@ == name@,
            forall|j: int| 0 <= j < i ==> words(args@)[j] != name@,
        decreases args.len() - i,
    {
        assert(words(args@)[i as int] == args@[i as int]@);
        if args[i] == wanted {
            proof {
                words(args@).index_of_first_ensures(name@);
            }
            return Some(i);
        }
        i += 1;
    }
    proof {
        words(args@).index_of_first_ensures(name@);
    }
    None
}

/// The value of the option `name`.
pub fn opt<'a>(args: &'a [String], name: &str) -> (r: Option<&'a str>)
    ensures
        match r {
            Some(s) => opt_spec(words(args@), name@) == Some(s@),
            None => opt_spec(words(args@), name@) is None,
        },
{
    let i: usize = position(args, name)?;
    proof {
        words(args@).index_of_first_ensures(name@);
    }
    if i < args.len() - 1 {
        Some(args[i + 1].as_str())
    } else {
        None
    }
}

/// Whether the switch `name` is given.
pub fn has_switch(args: &[String], name: &str) -> (r: bool)
    ensures
        r == words(args@).contains(name@),
{
    proof {
        words(args@).index_of_first_ensures(name@);
    }
    match position(args, name) {
        Some(_) => true,
        None => false,
    }
}

/// Where the logic to re-map comes from.
pub enum Netlist {
    /// A netlist in AIGER form.
    Aig(String),
    /// Verilog, from which the AIGER netlist of the top module is to be
    /// extracted.
    Verilog(String),
}

/// Where the cells of the technology come from.
pub enum CellLibrary {
    /// A genlib file.
    Genlib(String),
    /// A Liberty file, which is to be converted.
    Liberty(String),
}

/// The options of one re-mapping. A netlist or a library may be missing.
pub struct Job {
    pub want_json: bool,
    pub top: String,
    pub out: String,
    pub netlist: Option<Netlist>,
    pub library: Option<CellLibrary>,
    pub check: bool,
}

/// What a [`Netlist`] names.
pub enum NetlistView {
    Aig(Seq<char>),
    Verilog(Seq<char>),
}

/// What a [`CellLibrary`] names.
pub enum CellLibraryView {
    Genlib(Seq<char>),
    Liberty(Seq<char>),
}

/// What a [`Job`] asks for.
pub struct JobView {
    pub want_json: bool,
    pub top: Seq<char>,
    pub out: Seq<char>,
    pub netlist: Option<NetlistView>,
    pub library: Option<CellLibraryView>,
    pub check: bool,
}

impl View for Netlist {
    type V = NetlistView;

    open spec fn view(&self) -> NetlistView {
        match *self {
            Netlist::Aig(path) => NetlistView::Aig(path@),
            Netlist::Verilog(path) => NetlistView::Verilog(path@),
        }
    }
}

impl View for CellLibrary {
    type V = CellLibraryView;

    open spec fn view(&self) -> CellLibraryView {
        match *self {
            CellLibrary::Genlib(path) => CellLibraryView::Genlib(path@),
            CellLibrary::Liberty(path) => CellLibraryView::Liberty(path@),
        }
    }
}

impl View for Job {
    type V = JobView;

    open spec fn view(&self) -> JobView {
        JobView {
            want_json: self.want_json,
            top: self.top@,
            out: self.out@,
            netlist: match self.netlist {
                Some(n) => Some(n@),
                None => None,
            },
            library: match self.library {
                Some(l) => Some(l@),
                None => None,
            },
            check: self.check,
        }
    }
}

/// What the arguments ask for. A netlist in AIGER form goes before Verilog,
/// a genlib before a Liberty file, and `-o` before `--out`. Verilog counts only
/// together with the name of its top module; an AIGER netlist has none, so
/// there a name is made up where `--top` gives none.
pub open spec fn job_spec(args: Seq<Seq<char>>) -> JobView {
    JobView {
        want_json: args.contains("--json"@),
        top: or_default(opt_spec(args, "--top"@), "top"@),
        out: or_default(
            opt_spec(args, "-o"@),
            or_default(opt_spec(args, "--out"@), "remap_out.v"@),
        ),
        netlist: match (opt_spec(args, "--aig"@), opt_spec(args, "--verilog"@)) {
            (Some(aig), _) => Some(NetlistView::Aig(aig)),
            (None, Some(verilog)) => if opt_spec(args, "--top"@) is Some {
                Some(NetlistView::Verilog(verilog))
            } else {
                None
            },
            (None, None) => None,
        },
        library: match (opt_spec(args, "--genlib"@), opt_spec(args, "--liberty"@)) {
            (Some(genlib), _) => Some(CellLibraryView::Genlib(genlib)),
            (None, Some(liberty)) => Some(CellLibraryView::Liberty(liberty)),
            (None, None) => None,
        },
        check: !args.contains("--no-cec"@),
    }
}

/// Reads the options of a re-mapping.
pub fn read_job(args: &[String]) -> (r: Job)
    ensures
        r@ == job_spec(words(args@)),
{
    let want_json: bool = has_switch(args, "--json");
    let named_top: Option<&str> = opt(args, "--top");
    let top: &str = match named_top {
        Some(t) => t,
        None => "top",
    };
    let out: &str = match opt(args, "-o") {
        Some(o) => o,
        None => match opt(args, "--out") {
            Some(o) => o,
            None => "remap_out.v",
        },
    };
    let netlist: Option<Netlist> = match opt(args, "--aig") {
        Some(path) => Some(Netlist::Aig(path.to_owned())),
        None => match (opt(args, "--verilog"), named_top) {
            (Some(path), Some(_)) => Some(Netlist::Verilog(path.to_owned())),
            _ => None,
        },
    };
    let library: Option<CellLibrary> = match opt(args, "--genlib") {
        Some(path) => Some(CellLibrary::Genlib(path.to_owned())),
        None => match opt(args, "--liberty") {
            Some(path) => Some(CellLibrary::Liberty(path.to_owned())),
            None => None,
        },
    };
    let check: bool = !has_switch(args, "--no-cec");
    Job { want_json, top: top.to_owned(), out: out.to_owned(), netlist, library, check }
}

}
