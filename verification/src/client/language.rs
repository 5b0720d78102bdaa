//! The closed set of source languages the service accepts.
use vstd::prelude::*;

verus! {

/// A source language understood by the remote service.
#[derive(Debug, Clone, Copy, PartialEq, Eq, Structural)]
pub enum MossLanguage {
    C,
    CPP,
    JAVA,
    ML,
    PASCAL,
    ADA,
    LISP,
    SCHEME,
    HASKELL,
    FORTRAN,
    ASCII,
    VHDL,
    PERL,
    MATLAB,
    PYTHON,
    MIPS,
    PROLOG,
    SPICE,
    VB,
    CSHARP,
    MODULA2,
    A8086,
    JAVASCRIPT,
    PLSQL,
}

impl MossLanguage {
    /// The lowercase token that stands for the language on the wire.
    pub open spec fn token(self) -> Seq<char> {
        match self {
            MossLanguage::C => "c"@,
            MossLanguage::CPP => "cpp"@,
            MossLanguage::JAVA => "java"@,
            MossLanguage::ML => "ml"@,
            MossLanguage::PASCAL => "pascal"@,
            MossLanguage::ADA => "ada"@,
            MossLanguage::LISP => "lisp"@,
            MossLanguage::SCHEME => "scheme"@,
            MossLanguage::HASKELL => "haskell"@,
            MossLanguage::FORTRAN => "fortran"@,
            MossLanguage::ASCII => "ascii"@,
            MossLanguage::VHDL => "vhdl"@,
            MossLanguage::PERL => "perl"@,
            MossLanguage::MATLAB => "matlab"@,
            MossLanguage::PYTHON => "python"@,
            MossLanguage::MIPS => "mips"@,
            MossLanguage::PROLOG => "prolog"@,
            MossLanguage::SPICE => "spice"@,
            MossLanguage::VB => "vb"@,
            MossLanguage::CSHARP => "csharp"@,
            MossLanguage::MODULA2 => "modula2"@,
            MossLanguage::A8086 => "a8086"@,
            MossLanguage::JAVASCRIPT => "javascript"@,
            MossLanguage::PLSQL => "plsql"@,
        }
    }

    /// The wire token as a string slice.
    pub fn as_str(&self) -> (r: &'static str)
        ensures
            r@ == self.token(),
    {
        match self {
            MossLanguage::C => "c",
            MossLanguage::CPP => "cpp",
            MossLanguage::JAVA => "java",
            MossLanguage::ML => "ml",
            MossLanguage::PASCAL => "pascal",
            MossLanguage::ADA => "ada",
            MossLanguage::LISP => "lisp",
            MossLanguage::SCHEME => "scheme",
            MossLanguage::HASKELL => "haskell",
            MossLanguage::FORTRAN => "fortran",
            MossLanguage::ASCII => "ascii",
            MossLanguage::VHDL => "vhdl",
            MossLanguage::PERL => "perl",
            MossLanguage::MATLAB => "matlab",
            MossLanguage::PYTHON => "python",
            MossLanguage::MIPS => "mips",
            MossLanguage::PROLOG => "prolog",
            MossLanguage::SPICE => "spice",
            MossLanguage::VB => "vb",
            MossLanguage::CSHARP => "csharp",
            MossLanguage::MODULA2 => "modula2",
            MossLanguage::A8086 => "a8086",
            MossLanguage::JAVASCRIPT => "javascript",
            MossLanguage::PLSQL => "plsql",
        }
    }
}

impl Default for MossLanguage {
    fn default() -> (r: Self)
        ensures
            r == MossLanguage::C,
    {
        MossLanguage::C
    }
}

} // verus!
