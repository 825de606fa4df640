//! A root object for a Halide checkout: [`Halide`] keeps the checkout and
//! output directories, and collects the [`HalideGen`] generator records
//! registered with it.

use vstd::prelude::*;

verus! {

/// The ghost image of a [`HalideGen`].
pub ghost struct HalideGenView {
    /// Name of the generator.
    pub gen_name: Seq<char>,
    /// Root of the Halide checkout.
    pub halide_path: Seq<char>,
    /// Directory holding the generator sources.
    pub gen_path: Seq<char>,
    /// Directory that receives the produced Rust sources.
    pub rs_out_path: Seq<char>,
    /// Whether the generator runs with console debugging.
    pub debug: bool,
    /// Extra arguments for the generator run.
    pub args: Seq<Seq<char>>,
    /// The Halide target string; empty until chosen.
    pub target: Seq<char>,
}

/// One generator known to a [`Halide`] root.
pub struct HalideGen {
    /// Name of the generator.
    pub gen_name: String,
    /// Root of the Halide checkout.
    pub halide_path: String,
    /// Directory holding the generator sources.
    pub gen_path: String,
    /// Directory that receives the produced Rust sources.
    pub rs_out_path: String,
    debug: bool,
    args: Vec<String>,
    target: String,
}

impl View for HalideGen {
    type V = HalideGenView;

    closed spec fn view(&self) -> HalideGenView {
        HalideGenView {
            gen_name: self.gen_name@,
            halide_path: self.halide_path@,
            gen_path: self.gen_path@,
            rs_out_path: self.rs_out_path@,
            debug: self.debug,
            args: self.args.deep_view(),
            target: self.target@,
        }
    }
}

/// A Halide checkout together with the directories generators are read from
/// and written to, and the generators registered so far.
pub struct Halide {
    /// Root of the Halide checkout.
    pub halide_path: String,
    /// Directory holding the generator sources.
    pub gen_path: String,
    /// Directory that receives the produced Rust sources.
    pub rs_out_path: String,
    /// The generators registered with [`Halide::newGen`].
    pub generators: Vec<HalideGen>,
}

impl Halide {
    /// Start from a checkout; the generator and output directories both
    /// begin at the externally chosen output directory, until
    /// [`Halide::gen_path`] or [`Halide::out_path`] points them elsewhere.
    pub fn new(halide_path: String, out_dir: String) -> (r: Halide)
        ensures
            r.halide_path@ == halide_path@,
            r.gen_path@ == out_dir@,
            r.rs_out_path@ == out_dir@,
            r.generators@.len() == 0,
    {
        let gen_dir = out_dir.clone();
        Halide {
            halide_path: halide_path,
            gen_path: gen_dir,
            rs_out_path: out_dir,
            generators: Vec::new(),
        }
    }

    /// Point the generator source directory elsewhere.
    pub fn gen_path(self, gen_path: String) -> (r: Halide)
        ensures
            r.gen_path@ == gen_path@,
            r.halide_path == self.halide_path,
            r.rs_out_path == self.rs_out_path,
            r.generators == self.generators,
    {
        Halide { gen_path: gen_path, ..self }
    }

    /// Point the output directory elsewhere.
    pub fn out_path(self, rs_path: String) -> (r: Halide)
        ensures
            r.rs_out_path@ == rs_path@,
            r.halide_path == self.halide_path,
            r.gen_path == self.gen_path,
            r.generators == self.generators,
    {
        Halide { rs_out_path: rs_path, ..self }
    }

    /// Register a generator by name: a fresh [`HalideGen`] over this root's
    /// paths is appended to the list.
    pub fn newGen(&mut self, genName: String)
        ensures
            final(self).halide_path == old(self).halide_path,
            final(self).gen_path == old(self).gen_path,
            final(self).rs_out_path == old(self).rs_out_path,
            final(self).generators@.len() == old(self).generators@.len() + 1,
            final(self).generators@.take(old(self).generators@.len() as int) == old(
                self,
            ).generators@,
            ({
                let g = final(self).generators@.last();
                &&& g@.gen_name == genName@
                &&& g@.halide_path == old(self).halide_path@
                &&& g@.gen_path == old(self).gen_path@
                &&& g@.rs_out_path == old(self).rs_out_path@
                &&& g@.debug == false
                &&& g@.args.len() == 0
                &&& g@.target.len() == 0
            }),
    {
        let g = HalideGen::new(genName, self);
        self.generators.push(g);
        proof {
            assert(final(self).generators@.take(old(self).generators@.len() as int) =~= old(
                self,
            ).generators@);
        }
    }
}

impl HalideGen {
    /// A fresh generator record over the paths of `input`: no debugging, no
    /// extra arguments, and no target chosen yet.
    pub fn new(gen_name: String, input: &Halide) -> (r: HalideGen)
        ensures
            r@.gen_name == gen_name@,
            r@.halide_path == input.halide_path@,
            r@.gen_path == input.gen_path@,
            r@.rs_out_path == input.rs_out_path@,
            r@.debug == false,
            r@.args.len() == 0,
            r@.target.len() == 0,
    {
        HalideGen {
            gen_name: gen_name,
            halide_path: input.halide_path.clone(),
            gen_path: input.gen_path.clone(),
            rs_out_path: input.rs_out_path.clone(),
            debug: false,
            args: Vec::new(),
            target: String::new(),
        }
    }
}

} // verus!
