//! Build-time helpers for Halide generators: a builder that fixes the
//! directory layout, and a generator description from which every path and
//! command line of the compile / run / rename / bind steps is computed.
//!
//! Only the computation lives here. Spawning the compiler or the generator
//! executable, renaming files and writing bindings are left to the
//! surrounding build script, which feeds these argument vectors to the
//! commands it runs.

use vstd::prelude::*;
use vstd::string::StringExecFns;

use crate::paths::{concat_str, ext_seq, join_path, join_seq, with_extension};

verus! {

/// The ghost image of a [`GenBuilder`]: its paths as character sequences.
pub ghost struct GenBuilderView {
    /// Root of the compiled Halide distribution.
    pub halide_path: Seq<char>,
    /// Directory holding the generator sources.
    pub gen_path: Seq<char>,
    /// Directory that receives every produced artifact.
    pub rs_output: Seq<char>,
    /// Whether generators run with console debugging.
    pub debug: bool,
    /// The Halide target string handed to a generator run.
    pub target: Seq<char>,
}

/// Fixes the paths from which generators are built: where the compiled
/// Halide distribution lives, where the generator sources are, and where the
/// produced artifacts go.
pub struct GenBuilder {
    halide_path: String,
    gen_path: String,
    rs_output: String,
    debug: bool,
    target: String,
}

impl View for GenBuilder {
    type V = GenBuilderView;

    closed spec fn view(&self) -> GenBuilderView {
        GenBuilderView {
            halide_path: self.halide_path@,
            gen_path: self.gen_path@,
            rs_output: self.rs_output@,
            debug: self.debug,
            target: self.target@,
        }
    }
}

/// The ghost image of a [`Generator`].
pub ghost struct GeneratorView {
    /// Name of the generator; the source file and the emitted artifacts all
    /// carry it.
    pub gen_name: Seq<char>,
    /// Path of the generator executable once compiled.
    pub gen_exe: Seq<char>,
    /// Root of the compiled Halide distribution.
    pub halide_path: Seq<char>,
    /// Path of the generator's C++ source file.
    pub gen_path: Seq<char>,
    /// Directory that receives every produced artifact.
    pub rs_output: Seq<char>,
    /// Linker flags appended to the compile command.
    pub gcc_flags: Seq<Seq<char>>,
    /// Whether the generator runs with console debugging.
    pub debug: bool,
    /// The Halide target string handed to the generator run.
    pub target: Seq<char>,
}

/// One Halide generator, made by [`GenBuilder::new_gen`]: the paths of its
/// source, executable and artifacts, and the flags of its build commands.
pub struct Generator {
    gen_name: String,
    gen_exe: String,
    halide_path: String,
    gen_path: String,
    rs_output: String,
    gcc_flags: Vec<String>,
    debug: bool,
    target: String,
}

impl View for Generator {
    type V = GeneratorView;

    closed spec fn view(&self) -> GeneratorView {
        GeneratorView {
            gen_name: self.gen_name@,
            gen_exe: self.gen_exe@,
            halide_path: self.halide_path@,
            gen_path: self.gen_path@,
            rs_output: self.rs_output@,
            gcc_flags: self.gcc_flags.deep_view(),
            debug: self.debug,
            target: self.target@,
        }
    }
}

impl GenBuilder {
    /// Start a builder from the Halide checkout and the generator source
    /// directory. The compiled distribution is expected under `distrib`
    /// inside the checkout; artifacts go to `target` until
    /// [`Self::out_dir`] points somewhere else, such as a directory chosen
    /// by the build environment.
    pub fn new(halide_path: String, gen_path: String) -> (r: GenBuilder)
        ensures
            r@.halide_path == join_seq(halide_path@, "distrib"@),
            r@.gen_path == gen_path@,
            r@.rs_output == "target"@,
            r@.debug == false,
            r@.target == "target=host-no_runtime"@,
    {
        let joined = join_path(halide_path.as_str(), "distrib");
        GenBuilder {
            halide_path: joined,
            gen_path: gen_path,
            rs_output: String::from_str("target"),
            debug: false,
            target: String::from_str("target=host-no_runtime"),
        }
    }

    /// Override the output directory that receives the artifacts.
    pub fn out_dir(self, out: String) -> (r: Self)
        ensures
            r@.rs_output == out@,
            r@.halide_path == self@.halide_path,
            r@.gen_path == self@.gen_path,
            r@.debug == self@.debug,
            r@.target == self@.target,
    {
        GenBuilder { rs_output: out, ..self }
    }

    /// Set console debugging for the generators; off by default.
    pub fn debug(self, b: bool) -> (r: Self)
        ensures
            r@.debug == b,
            r@.halide_path == self@.halide_path,
            r@.gen_path == self@.gen_path,
            r@.rs_output == self@.rs_output,
            r@.target == self@.target,
    {
        GenBuilder { debug: b, ..self }
    }

    /// Create a generator by name. The source must be `gen_name.cpp` in the
    /// generator directory and the internal C++ class must carry the same
    /// name. An empty name stands for the bare runtime: its executable is
    /// called `runtime` instead. The executable path carries no extension.
    pub fn new_gen(self, gen_name: String) -> (r: Generator)
        ensures
            r@.gen_name == gen_name@,
            gen_name@.len() == 0 ==> r@.gen_exe == join_seq(self@.rs_output, "runtime"@),
            gen_name@.len() != 0 ==> r@.gen_exe == join_seq(self@.rs_output, gen_name@),
            r@.halide_path == self@.halide_path,
            r@.gen_path == ext_seq(join_seq(self@.gen_path, gen_name@), "cpp"@),
            r@.rs_output == self@.rs_output,
            r@.gcc_flags =~= seq!["-lHalide"@, "-ldl"@, "-lpthread"@, "-lz"@],
            r@.debug == self@.debug,
            r@.target == self@.target,
    {
        let gen_exe = if gen_name.as_str().is_empty() {
            join_path(self.rs_output.as_str(), "runtime")
        } else {
            join_path(self.rs_output.as_str(), gen_name.as_str())
        };
        let gen_cpp_base = join_path(self.gen_path.as_str(), gen_name.as_str());
        let gen_cpp = with_extension(gen_cpp_base.as_str(), "cpp");

        let mut gcc_flags: Vec<String> = Vec::new();
        gcc_flags.push(String::from_str("-lHalide"));
        gcc_flags.push(String::from_str("-ldl"));
        gcc_flags.push(String::from_str("-lpthread"));
        gcc_flags.push(String::from_str("-lz"));

        Generator {
            gen_name: gen_name,
            gen_exe: gen_exe,
            halide_path: self.halide_path,
            gen_path: gen_cpp,
            rs_output: self.rs_output,
            gcc_flags: gcc_flags,
            debug: self.debug,
            target: self.target,
        }
    }
}

impl GeneratorView {
    /// Path of Halide's generator driver source, `GenGen.cpp` under the
    /// distribution's `tools` directory.
    pub open spec fn gengen(self) -> Seq<char> {
        ext_seq(join_seq(join_seq(self.halide_path, "tools"@), "GenGen"@), "cpp"@)
    }

    /// The full g++ command line that compiles the generator executable:
    /// C++17, the distribution's include, tools and lib directories, the
    /// generator source (omitted for the bare runtime) together with the
    /// driver source, the executable's path, and the linker flags.
    pub open spec fn compile_args(self) -> Seq<Seq<char>> {
        let head = seq![
            "-std=c++17"@,
            "-I"@,
            join_seq(self.halide_path, "include"@),
            "-I"@,
            join_seq(self.halide_path, "tools"@),
            "-L"@,
            join_seq(self.halide_path, "lib"@),
        ];
        let sources = if self.gen_name.len() == 0 {
            seq!["-g"@, self.gengen()]
        } else {
            seq!["-g"@, self.gen_path, self.gengen()]
        };
        head + sources + seq!["-o"@, self.gen_exe] + self.gcc_flags
    }

    /// The target argument of a generator run: the configured target string,
    /// with `-debug` appended when console debugging is on.
    pub open spec fn target_arg(self) -> Seq<char> {
        if self.debug {
            self.target + "-debug"@
        } else {
            self.target
        }
    }

    /// The argument list of a generator run: the generator and function
    /// names, the output directory, and the target.
    pub open spec fn run_gen_args(self) -> Seq<Seq<char>> {
        seq!["-g"@, self.gen_name, "-f"@, self.gen_name, "-o"@, self.rs_output, self.target_arg()]
    }

    /// The argument list that makes the generator emit the Halide runtime
    /// into the output directory.
    pub open spec fn make_runtime_args(self) -> Seq<Seq<char>> {
        seq!["-r"@, "runtime"@, "-o"@, self.rs_output, "target=host"@]
    }
}

impl Generator {
    /// The generator's name.
    pub fn gen_name(&self) -> (r: &str)
        ensures
            r@ == self@.gen_name,
    {
        self.gen_name.as_str()
    }

    /// Path of the generator executable.
    pub fn gen_exe(&self) -> (r: &str)
        ensures
            r@ == self@.gen_exe,
    {
        self.gen_exe.as_str()
    }

    /// Path of the generator's C++ source file.
    pub fn gen_source(&self) -> (r: &str)
        ensures
            r@ == self@.gen_path,
    {
        self.gen_path.as_str()
    }

    /// Root of the compiled Halide distribution.
    pub fn halide_path(&self) -> (r: &str)
        ensures
            r@ == self@.halide_path,
    {
        self.halide_path.as_str()
    }

    /// The directory that receives the artifacts.
    pub fn rs_output(&self) -> (r: &str)
        ensures
            r@ == self@.rs_output,
    {
        self.rs_output.as_str()
    }

    /// Compute the g++ command line that makes the generator executable from
    /// Halide's generator driver and this generator's source.
    pub fn compile_args(&self) -> (r: Vec<String>)
        ensures
            r.deep_view() =~= self@.compile_args(),
    {
        let mut args: Vec<String> = Vec::new();
        args.push(String::from_str("-std=c++17"));
        args.push(String::from_str("-I"));
        args.push(join_path(self.halide_path.as_str(), "include"));
        args.push(String::from_str("-I"));
        args.push(join_path(self.halide_path.as_str(), "tools"));
        args.push(String::from_str("-L"));
        args.push(join_path(self.halide_path.as_str(), "lib"));

        let tools = join_path(self.halide_path.as_str(), "tools");
        let gengen_base = join_path(tools.as_str(), "GenGen");
        let gengen = with_extension(gengen_base.as_str(), "cpp");

        args.push(String::from_str("-g"));
        if !self.gen_name.as_str().is_empty() {
            args.push(self.gen_path.clone());
        }
        args.push(gengen);

        args.push(String::from_str("-o"));
        args.push(self.gen_exe.clone());

        let base = args.len();
        let ghost head = args@;
        let n = self.gcc_flags.len();
        let mut k: usize = 0;
        while k < n
            invariant
                n == self.gcc_flags@.len(),
                k <= n,
                base == head.len(),
                args@ =~= head + self.gcc_flags@.take(k as int),
            decreases n - k,
        {
            args.push(self.gcc_flags[k].clone());
            k = k + 1;
        }
        assert(args@ =~= head + self.gcc_flags@);
        assert(args.deep_view() =~= self@.compile_args());
        args
    }

    /// Compute the argument list of a generator run.
    pub fn run_gen_args(&self) -> (r: Vec<String>)
        ensures
            r.deep_view() =~= self@.run_gen_args(),
    {
        let mut args: Vec<String> = Vec::new();
        args.push(String::from_str("-g"));
        args.push(self.gen_name.clone());
        args.push(String::from_str("-f"));
        args.push(self.gen_name.clone());
        args.push(String::from_str("-o"));
        args.push(self.rs_output.clone());
        if self.debug {
            args.push(concat_str(self.target.as_str(), "-debug"));
        } else {
            args.push(self.target.clone());
        }
        args
    }

    /// Compute the argument list that emits the Halide runtime.
    pub fn make_runtime_args(&self) -> (r: Vec<String>)
        ensures
            r.deep_view() =~= self@.make_runtime_args(),
    {
        let mut args: Vec<String> = Vec::new();
        args.push(String::from_str("-r"));
        args.push(String::from_str("runtime"));
        args.push(String::from_str("-o"));
        args.push(self.rs_output.clone());
        args.push(String::from_str("target=host"));
        args
    }

    /// The rename that linkers on Linux distributions expect for the
    /// generator's library: from `gen_name.a` to `libgen_name.a` inside the
    /// output directory. Returns the pair (current name, new name).
    pub fn rename_paths(&self) -> (r: (String, String))
        ensures
            r.0@ == ext_seq(join_seq(self@.rs_output, self@.gen_name), "a"@),
            r.1@ == ext_seq(join_seq(self@.rs_output, "lib"@ + self@.gen_name), "a"@),
    {
        let from_base = join_path(self.rs_output.as_str(), self.gen_name.as_str());
        let from = with_extension(from_base.as_str(), "a");
        let lib_name = concat_str("lib", self.gen_name.as_str());
        let to_base = join_path(self.rs_output.as_str(), lib_name.as_str());
        let to = with_extension(to_base.as_str(), "a");
        (from, to)
    }

    /// The same rename for the emitted runtime library: from `runtime.a` to
    /// `libruntime.a` inside the output directory.
    pub fn runtime_rename_paths(&self) -> (r: (String, String))
        ensures
            r.0@ == ext_seq(join_seq(self@.rs_output, "runtime"@), "a"@),
            r.1@ == ext_seq(join_seq(self@.rs_output, "lib"@ + "runtime"@), "a"@),
    {
        let from_base = join_path(self.rs_output.as_str(), "runtime");
        let from = with_extension(from_base.as_str(), "a");
        let lib_name = concat_str("lib", "runtime");
        let to_base = join_path(self.rs_output.as_str(), lib_name.as_str());
        let to = with_extension(to_base.as_str(), "a");
        (from, to)
    }

    /// The files a binding generation reads and writes: the emitted header
    /// `gen_name.h` and the binding file `gen_name.rs`, both inside the
    /// output directory. Returns the pair (header, binding file).
    pub fn bind_paths(&self) -> (r: (String, String))
        ensures
            r.0@ == ext_seq(join_seq(self@.rs_output, self@.gen_name), "h"@),
            r.1@ == ext_seq(join_seq(self@.rs_output, self@.gen_name), "rs"@),
    {
        let base = join_path(self.rs_output.as_str(), self.gen_name.as_str());
        let header = with_extension(base.as_str(), "h");
        let base2 = join_path(self.rs_output.as_str(), self.gen_name.as_str());
        let out = with_extension(base2.as_str(), "rs");
        (header, out)
    }
}

} // verus!
