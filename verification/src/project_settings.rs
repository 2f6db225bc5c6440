//! Per-project filter settings and the extension categories the project
//! setup screen groups file types by.

use vstd::prelude::*;

use crate::text::{
    chars_eq, chars_of, decimal, digit, digit_char, push_decimal, push_str_chars, string_from_chars,
};

verus! {

/// Which file extensions and folders a project hides from the code map.
pub struct ProjectSettings {
    pub filter_extensions: Vec<String>,
    pub filter_folders: Vec<String>,
}

/// Broad file-type families for the project setup screen.
#[derive(Debug, Clone, Copy, PartialEq, Eq, Hash, PartialOrd, Ord, Structural)]
pub enum ExtensionCategory {
    Code,
    Config,
    Docs,
    Styles,
    Markup,
    Binary,
    Media,
    Archive,
    Font,
    Generated,
    Other,
}

/// Display label of a category.
pub open spec fn label_spec(c: ExtensionCategory) -> Seq<char> {
    match c {
        ExtensionCategory::Code => "Code"@,
        ExtensionCategory::Config => "Config"@,
        ExtensionCategory::Docs => "Docs"@,
        ExtensionCategory::Styles => "Styles"@,
        ExtensionCategory::Markup => "Markup"@,
        ExtensionCategory::Binary => "Binary"@,
        ExtensionCategory::Media => "Media"@,
        ExtensionCategory::Archive => "Archive"@,
        ExtensionCategory::Font => "Font"@,
        ExtensionCategory::Generated => "Generated"@,
        ExtensionCategory::Other => "Other"@,
    }
}

/// Whether a category is shown by default.
pub open spec fn default_enabled_spec(c: ExtensionCategory) -> bool {
    match c {
        ExtensionCategory::Code => true,
        ExtensionCategory::Config => true,
        ExtensionCategory::Docs => true,
        ExtensionCategory::Styles => true,
        ExtensionCategory::Markup => true,
        ExtensionCategory::Binary => false,
        ExtensionCategory::Media => false,
        ExtensionCategory::Archive => false,
        ExtensionCategory::Font => false,
        ExtensionCategory::Generated => false,
        ExtensionCategory::Other => true,
    }
}

/// Position of a category in the setup list.
pub open spec fn sort_order_spec(c: ExtensionCategory) -> u8 {
    match c {
        ExtensionCategory::Code => 0,
        ExtensionCategory::Config => 1,
        ExtensionCategory::Docs => 2,
        ExtensionCategory::Styles => 3,
        ExtensionCategory::Markup => 4,
        ExtensionCategory::Binary => 6,
        ExtensionCategory::Media => 7,
        ExtensionCategory::Archive => 8,
        ExtensionCategory::Font => 9,
        ExtensionCategory::Generated => 10,
        ExtensionCategory::Other => 5,
    }
}

impl ExtensionCategory {
    /// Display label.
    pub fn label(self) -> (r: &'static str)
        ensures
            r@ == label_spec(self),
    {
        match self {
            ExtensionCategory::Code => "Code",
            ExtensionCategory::Config => "Config",
            ExtensionCategory::Docs => "Docs",
            ExtensionCategory::Styles => "Styles",
            ExtensionCategory::Markup => "Markup",
            ExtensionCategory::Binary => "Binary",
            ExtensionCategory::Media => "Media",
            ExtensionCategory::Archive => "Archive",
            ExtensionCategory::Font => "Font",
            ExtensionCategory::Generated => "Generated",
            ExtensionCategory::Other => "Other",
        }
    }

    /// Source-like categories start enabled; binaries, media, archives,
    /// fonts and generated files start filtered out.
    pub fn default_enabled(self) -> (r: bool)
        ensures
            r == default_enabled_spec(self),
    {
        match self {
            Self::Code | Self::Config | Self::Docs | Self::Styles | Self::Markup | Self::Other => {
                true
            },
            Self::Binary | Self::Media | Self::Archive | Self::Font | Self::Generated => false,
        }
    }

    /// Position in the setup list: enabled-by-default categories first.
    pub fn sort_order(self) -> (r: u8)
        ensures
            r == sort_order_spec(self),
    {
        match self {
            Self::Code => 0,
            Self::Config => 1,
            Self::Docs => 2,
            Self::Styles => 3,
            Self::Markup => 4,
            Self::Binary => 6,
            Self::Media => 7,
            Self::Archive => 8,
            Self::Font => 9,
            Self::Generated => 10,
            Self::Other => 5,
        }
    }
}

/// Category of a file extension (case-sensitive, without the dot).
pub open spec fn categorize_spec(ext: Seq<char>) -> ExtensionCategory {
    if ext == "rs"@ || ext == "py"@ || ext == "js"@ || ext == "jsx"@ || ext == "ts"@ || ext == "tsx"@ || ext == "c"@ || ext == "h"@ || ext == "cpp"@ || ext == "cc"@ || ext == "cxx"@ || ext == "hpp"@ || ext == "hxx"@ || ext == "hh"@ || ext == "cs"@ || ext == "java"@ || ext == "kt"@ || ext == "kts"@ || ext == "go"@ || ext == "rb"@ || ext == "php"@ || ext == "swift"@ || ext == "m"@ || ext == "mm"@ || ext == "r"@ || ext == "R"@ || ext == "scala"@ || ext == "clj"@ || ext == "cljs"@ || ext == "erl"@ || ext == "ex"@ || ext == "exs"@ || ext == "hs"@ || ext == "lua"@ || ext == "pl"@ || ext == "pm"@ || ext == "sh"@ || ext == "bash"@ || ext == "zsh"@ || ext == "fish"@ || ext == "ps1"@ || ext == "bat"@ || ext == "cmd"@ || ext == "zig"@ || ext == "nim"@ || ext == "v"@ || ext == "d"@ || ext == "f90"@ || ext == "f95"@ || ext == "jl"@ || ext == "ml"@ || ext == "mli"@ || ext == "fs"@ || ext == "fsx"@ || ext == "dart"@ || ext == "groovy"@ || ext == "vb"@ || ext == "vbs"@ || ext == "asm"@ || ext == "s"@ || ext == "S"@ {
        ExtensionCategory::Code
    } else if ext == "toml"@ || ext == "json"@ || ext == "yaml"@ || ext == "yml"@ || ext == "xml"@ || ext == "ini"@ || ext == "cfg"@ || ext == "conf"@ || ext == "env"@ || ext == "properties"@ || ext == "plist"@ || ext == "editorconfig"@ || ext == "eslintrc"@ || ext == "prettierrc"@ || ext == "babelrc"@ || ext == "nvmrc"@ || ext == "dockerignore"@ || ext == "gitattributes"@ {
        ExtensionCategory::Config
    } else if ext == "md"@ || ext == "markdown"@ || ext == "txt"@ || ext == "rst"@ || ext == "adoc"@ || ext == "org"@ || ext == "tex"@ || ext == "latex"@ || ext == "rdoc"@ || ext == "pod"@ {
        ExtensionCategory::Docs
    } else if ext == "css"@ || ext == "scss"@ || ext == "sass"@ || ext == "less"@ || ext == "styl"@ || ext == "stylus"@ || ext == "pcss"@ {
        ExtensionCategory::Styles
    } else if ext == "html"@ || ext == "htm"@ || ext == "vue"@ || ext == "svelte"@ || ext == "erb"@ || ext == "ejs"@ || ext == "hbs"@ || ext == "handlebars"@ || ext == "pug"@ || ext == "jade"@ || ext == "slim"@ || ext == "haml"@ || ext == "twig"@ || ext == "jinja"@ || ext == "jinja2"@ || ext == "mustache"@ || ext == "njk"@ || ext == "astro"@ {
        ExtensionCategory::Markup
    } else if ext == "exe"@ || ext == "dll"@ || ext == "obj"@ || ext == "o"@ || ext == "so"@ || ext == "dylib"@ || ext == "a"@ || ext == "lib"@ || ext == "pdb"@ || ext == "class"@ || ext == "pyc"@ || ext == "pyo"@ || ext == "wasm"@ || ext == "bin"@ || ext == "dat"@ || ext == "db"@ || ext == "sqlite"@ || ext == "mdb"@ {
        ExtensionCategory::Binary
    } else if ext == "png"@ || ext == "jpg"@ || ext == "jpeg"@ || ext == "gif"@ || ext == "ico"@ || ext == "bmp"@ || ext == "tiff"@ || ext == "tif"@ || ext == "webp"@ || ext == "avif"@ || ext == "mp3"@ || ext == "mp4"@ || ext == "wav"@ || ext == "flac"@ || ext == "ogg"@ || ext == "avi"@ || ext == "mkv"@ || ext == "mov"@ || ext == "wmv"@ || ext == "webm"@ || ext == "aac"@ || ext == "m4a"@ {
        ExtensionCategory::Media
    } else if ext == "zip"@ || ext == "tar"@ || ext == "gz"@ || ext == "bz2"@ || ext == "xz"@ || ext == "7z"@ || ext == "rar"@ || ext == "lz"@ || ext == "lzma"@ || ext == "zst"@ || ext == "cab"@ || ext == "dmg"@ || ext == "iso"@ || ext == "jar"@ || ext == "war"@ || ext == "ear"@ {
        ExtensionCategory::Archive
    } else if ext == "ttf"@ || ext == "otf"@ || ext == "woff"@ || ext == "woff2"@ || ext == "eot"@ {
        ExtensionCategory::Font
    } else if ext == "pdf"@ || ext == "map"@ || ext == "min"@ || ext == "bundle"@ || ext == "chunk"@ {
        ExtensionCategory::Generated
    } else {
        ExtensionCategory::Other
    }
}

fn is(ext: &[char], lit: &str) -> (r: bool)
    ensures
        r == (ext@ == lit@),
{
    let l = chars_of(lit);
    chars_eq(ext, &l)
}

/// Category of a file extension (case-sensitive, without the dot).
pub fn categorize_extension(ext: &str) -> (r: ExtensionCategory)
    ensures
        r == categorize_spec(ext@),
{
    let ext_chars = chars_of(ext);
    let ext = ext_chars.as_slice();
    if is(ext, "rs") || is(ext, "py") || is(ext, "js") || is(ext, "jsx") || is(ext, "ts") || is(ext, "tsx") || is(ext, "c") || is(ext, "h") || is(ext, "cpp") || is(ext, "cc") || is(ext, "cxx") || is(ext, "hpp") || is(ext, "hxx") || is(ext, "hh") || is(ext, "cs") || is(ext, "java") || is(ext, "kt") || is(ext, "kts") || is(ext, "go") || is(ext, "rb") || is(ext, "php") || is(ext, "swift") || is(ext, "m") || is(ext, "mm") || is(ext, "r") || is(ext, "R") || is(ext, "scala") || is(ext, "clj") || is(ext, "cljs") || is(ext, "erl") || is(ext, "ex") || is(ext, "exs") || is(ext, "hs") || is(ext, "lua") || is(ext, "pl") || is(ext, "pm") || is(ext, "sh") || is(ext, "bash") || is(ext, "zsh") || is(ext, "fish") || is(ext, "ps1") || is(ext, "bat") || is(ext, "cmd") || is(ext, "zig") || is(ext, "nim") || is(ext, "v") || is(ext, "d") || is(ext, "f90") || is(ext, "f95") || is(ext, "jl") || is(ext, "ml") || is(ext, "mli") || is(ext, "fs") || is(ext, "fsx") || is(ext, "dart") || is(ext, "groovy") || is(ext, "vb") || is(ext, "vbs") || is(ext, "asm") || is(ext, "s") || is(ext, "S") {
        ExtensionCategory::Code
    } else if is(ext, "toml") || is(ext, "json") || is(ext, "yaml") || is(ext, "yml") || is(ext, "xml") || is(ext, "ini") || is(ext, "cfg") || is(ext, "conf") || is(ext, "env") || is(ext, "properties") || is(ext, "plist") || is(ext, "editorconfig") || is(ext, "eslintrc") || is(ext, "prettierrc") || is(ext, "babelrc") || is(ext, "nvmrc") || is(ext, "dockerignore") || is(ext, "gitattributes") {
        ExtensionCategory::Config
    } else if is(ext, "md") || is(ext, "markdown") || is(ext, "txt") || is(ext, "rst") || is(ext, "adoc") || is(ext, "org") || is(ext, "tex") || is(ext, "latex") || is(ext, "rdoc") || is(ext, "pod") {
        ExtensionCategory::Docs
    } else if is(ext, "css") || is(ext, "scss") || is(ext, "sass") || is(ext, "less") || is(ext, "styl") || is(ext, "stylus") || is(ext, "pcss") {
        ExtensionCategory::Styles
    } else if is(ext, "html") || is(ext, "htm") || is(ext, "vue") || is(ext, "svelte") || is(ext, "erb") || is(ext, "ejs") || is(ext, "hbs") || is(ext, "handlebars") || is(ext, "pug") || is(ext, "jade") || is(ext, "slim") || is(ext, "haml") || is(ext, "twig") || is(ext, "jinja") || is(ext, "jinja2") || is(ext, "mustache") || is(ext, "njk") || is(ext, "astro") {
        ExtensionCategory::Markup
    } else if is(ext, "exe") || is(ext, "dll") || is(ext, "obj") || is(ext, "o") || is(ext, "so") || is(ext, "dylib") || is(ext, "a") || is(ext, "lib") || is(ext, "pdb") || is(ext, "class") || is(ext, "pyc") || is(ext, "pyo") || is(ext, "wasm") || is(ext, "bin") || is(ext, "dat") || is(ext, "db") || is(ext, "sqlite") || is(ext, "mdb") {
        ExtensionCategory::Binary
    } else if is(ext, "png") || is(ext, "jpg") || is(ext, "jpeg") || is(ext, "gif") || is(ext, "ico") || is(ext, "bmp") || is(ext, "tiff") || is(ext, "tif") || is(ext, "webp") || is(ext, "avif") || is(ext, "mp3") || is(ext, "mp4") || is(ext, "wav") || is(ext, "flac") || is(ext, "ogg") || is(ext, "avi") || is(ext, "mkv") || is(ext, "mov") || is(ext, "wmv") || is(ext, "webm") || is(ext, "aac") || is(ext, "m4a") {
        ExtensionCategory::Media
    } else if is(ext, "zip") || is(ext, "tar") || is(ext, "gz") || is(ext, "bz2") || is(ext, "xz") || is(ext, "7z") || is(ext, "rar") || is(ext, "lz") || is(ext, "lzma") || is(ext, "zst") || is(ext, "cab") || is(ext, "dmg") || is(ext, "iso") || is(ext, "jar") || is(ext, "war") || is(ext, "ear") {
        ExtensionCategory::Archive
    } else if is(ext, "ttf") || is(ext, "otf") || is(ext, "woff") || is(ext, "woff2") || is(ext, "eot") {
        ExtensionCategory::Font
    } else if is(ext, "pdf") || is(ext, "map") || is(ext, "min") || is(ext, "bundle") || is(ext, "chunk") {
        ExtensionCategory::Generated
    } else {
        ExtensionCategory::Other
    }
}


/// Law: the extensions of mainstream programming and shell languages are
/// code.
pub proof fn lemma_code_extensions()
    ensures
        categorize_spec("rs"@) == ExtensionCategory::Code,
        categorize_spec("py"@) == ExtensionCategory::Code,
        categorize_spec("js"@) == ExtensionCategory::Code,
        categorize_spec("jsx"@) == ExtensionCategory::Code,
        categorize_spec("ts"@) == ExtensionCategory::Code,
        categorize_spec("tsx"@) == ExtensionCategory::Code,
        categorize_spec("c"@) == ExtensionCategory::Code,
        categorize_spec("h"@) == ExtensionCategory::Code,
        categorize_spec("cpp"@) == ExtensionCategory::Code,
        categorize_spec("cc"@) == ExtensionCategory::Code,
        categorize_spec("cxx"@) == ExtensionCategory::Code,
        categorize_spec("hpp"@) == ExtensionCategory::Code,
        categorize_spec("hxx"@) == ExtensionCategory::Code,
        categorize_spec("hh"@) == ExtensionCategory::Code,
        categorize_spec("cs"@) == ExtensionCategory::Code,
        categorize_spec("java"@) == ExtensionCategory::Code,
        categorize_spec("kt"@) == ExtensionCategory::Code,
        categorize_spec("kts"@) == ExtensionCategory::Code,
        categorize_spec("go"@) == ExtensionCategory::Code,
        categorize_spec("rb"@) == ExtensionCategory::Code,
        categorize_spec("php"@) == ExtensionCategory::Code,
        categorize_spec("swift"@) == ExtensionCategory::Code,
        categorize_spec("m"@) == ExtensionCategory::Code,
        categorize_spec("mm"@) == ExtensionCategory::Code,
        categorize_spec("r"@) == ExtensionCategory::Code,
        categorize_spec("R"@) == ExtensionCategory::Code,
        categorize_spec("scala"@) == ExtensionCategory::Code,
        categorize_spec("clj"@) == ExtensionCategory::Code,
        categorize_spec("cljs"@) == ExtensionCategory::Code,
        categorize_spec("erl"@) == ExtensionCategory::Code,
        categorize_spec("ex"@) == ExtensionCategory::Code,
        categorize_spec("exs"@) == ExtensionCategory::Code,
        categorize_spec("hs"@) == ExtensionCategory::Code,
        categorize_spec("lua"@) == ExtensionCategory::Code,
        categorize_spec("pl"@) == ExtensionCategory::Code,
        categorize_spec("pm"@) == ExtensionCategory::Code,
        categorize_spec("sh"@) == ExtensionCategory::Code,
        categorize_spec("bash"@) == ExtensionCategory::Code,
        categorize_spec("zsh"@) == ExtensionCategory::Code,
        categorize_spec("fish"@) == ExtensionCategory::Code,
        categorize_spec("ps1"@) == ExtensionCategory::Code,
        categorize_spec("bat"@) == ExtensionCategory::Code,
        categorize_spec("cmd"@) == ExtensionCategory::Code,
        categorize_spec("zig"@) == ExtensionCategory::Code,
        categorize_spec("nim"@) == ExtensionCategory::Code,
        categorize_spec("v"@) == ExtensionCategory::Code,
        categorize_spec("d"@) == ExtensionCategory::Code,
        categorize_spec("f90"@) == ExtensionCategory::Code,
        categorize_spec("f95"@) == ExtensionCategory::Code,
        categorize_spec("jl"@) == ExtensionCategory::Code,
        categorize_spec("ml"@) == ExtensionCategory::Code,
        categorize_spec("mli"@) == ExtensionCategory::Code,
        categorize_spec("fs"@) == ExtensionCategory::Code,
        categorize_spec("fsx"@) == ExtensionCategory::Code,
        categorize_spec("dart"@) == ExtensionCategory::Code,
        categorize_spec("groovy"@) == ExtensionCategory::Code,
        categorize_spec("vb"@) == ExtensionCategory::Code,
        categorize_spec("vbs"@) == ExtensionCategory::Code,
        categorize_spec("asm"@) == ExtensionCategory::Code,
        categorize_spec("s"@) == ExtensionCategory::Code,
        categorize_spec("S"@) == ExtensionCategory::Code,
{
    reveal_strlit("rs");
    reveal_strlit("py");
    reveal_strlit("js");
    reveal_strlit("jsx");
    reveal_strlit("ts");
    reveal_strlit("tsx");
    reveal_strlit("c");
    reveal_strlit("h");
    reveal_strlit("cpp");
    reveal_strlit("cc");
    reveal_strlit("cxx");
    reveal_strlit("hpp");
    reveal_strlit("hxx");
    reveal_strlit("hh");
    reveal_strlit("cs");
    reveal_strlit("java");
    reveal_strlit("kt");
    reveal_strlit("kts");
    reveal_strlit("go");
    reveal_strlit("rb");
    reveal_strlit("php");
    reveal_strlit("swift");
    reveal_strlit("m");
    reveal_strlit("mm");
    reveal_strlit("r");
    reveal_strlit("R");
    reveal_strlit("scala");
    reveal_strlit("clj");
    reveal_strlit("cljs");
    reveal_strlit("erl");
    reveal_strlit("ex");
    reveal_strlit("exs");
    reveal_strlit("hs");
    reveal_strlit("lua");
    reveal_strlit("pl");
    reveal_strlit("pm");
    reveal_strlit("sh");
    reveal_strlit("bash");
    reveal_strlit("zsh");
    reveal_strlit("fish");
    reveal_strlit("ps1");
    reveal_strlit("bat");
    reveal_strlit("cmd");
    reveal_strlit("zig");
    reveal_strlit("nim");
    reveal_strlit("v");
    reveal_strlit("d");
    reveal_strlit("f90");
    reveal_strlit("f95");
    reveal_strlit("jl");
    reveal_strlit("ml");
    reveal_strlit("mli");
    reveal_strlit("fs");
    reveal_strlit("fsx");
    reveal_strlit("dart");
    reveal_strlit("groovy");
    reveal_strlit("vb");
    reveal_strlit("vbs");
    reveal_strlit("asm");
    reveal_strlit("s");
    reveal_strlit("S");
    assert("rs"@.len() == 2 && "rs"@[0] == 'r' && "rs"@[1] == 's');
    assert("py"@.len() == 2 && "py"@[0] == 'p' && "py"@[1] == 'y');
    assert("js"@.len() == 2 && "js"@[0] == 'j' && "js"@[1] == 's');
    assert("jsx"@.len() == 3 && "jsx"@[0] == 'j' && "jsx"@[1] == 's' && "jsx"@[2] == 'x');
    assert("ts"@.len() == 2 && "ts"@[0] == 't' && "ts"@[1] == 's');
    assert("tsx"@.len() == 3 && "tsx"@[0] == 't' && "tsx"@[1] == 's' && "tsx"@[2] == 'x');
    assert("c"@.len() == 1 && "c"@[0] == 'c');
    assert("h"@.len() == 1 && "h"@[0] == 'h');
    assert("cpp"@.len() == 3 && "cpp"@[0] == 'c' && "cpp"@[1] == 'p' && "cpp"@[2] == 'p');
    assert("cc"@.len() == 2 && "cc"@[0] == 'c' && "cc"@[1] == 'c');
    assert("cxx"@.len() == 3 && "cxx"@[0] == 'c' && "cxx"@[1] == 'x' && "cxx"@[2] == 'x');
    assert("hpp"@.len() == 3 && "hpp"@[0] == 'h' && "hpp"@[1] == 'p' && "hpp"@[2] == 'p');
    assert("hxx"@.len() == 3 && "hxx"@[0] == 'h' && "hxx"@[1] == 'x' && "hxx"@[2] == 'x');
    assert("hh"@.len() == 2 && "hh"@[0] == 'h' && "hh"@[1] == 'h');
    assert("cs"@.len() == 2 && "cs"@[0] == 'c' && "cs"@[1] == 's');
    assert("java"@.len() == 4 && "java"@[0] == 'j' && "java"@[1] == 'a' && "java"@[2] == 'v' && "java"@[3] == 'a');
    assert("kt"@.len() == 2 && "kt"@[0] == 'k' && "kt"@[1] == 't');
    assert("kts"@.len() == 3 && "kts"@[0] == 'k' && "kts"@[1] == 't' && "kts"@[2] == 's');
    assert("go"@.len() == 2 && "go"@[0] == 'g' && "go"@[1] == 'o');
    assert("rb"@.len() == 2 && "rb"@[0] == 'r' && "rb"@[1] == 'b');
    assert("php"@.len() == 3 && "php"@[0] == 'p' && "php"@[1] == 'h' && "php"@[2] == 'p');
    assert("swift"@.len() == 5 && "swift"@[0] == 's' && "swift"@[1] == 'w' && "swift"@[2] == 'i' && "swift"@[3] == 'f' && "swift"@[4] == 't');
    assert("m"@.len() == 1 && "m"@[0] == 'm');
    assert("mm"@.len() == 2 && "mm"@[0] == 'm' && "mm"@[1] == 'm');
    assert("r"@.len() == 1 && "r"@[0] == 'r');
    assert("R"@.len() == 1 && "R"@[0] == 'R');
    assert("scala"@.len() == 5 && "scala"@[0] == 's' && "scala"@[1] == 'c' && "scala"@[2] == 'a' && "scala"@[3] == 'l' && "scala"@[4] == 'a');
    assert("clj"@.len() == 3 && "clj"@[0] == 'c' && "clj"@[1] == 'l' && "clj"@[2] == 'j');
    assert("cljs"@.len() == 4 && "cljs"@[0] == 'c' && "cljs"@[1] == 'l' && "cljs"@[2] == 'j' && "cljs"@[3] == 's');
    assert("erl"@.len() == 3 && "erl"@[0] == 'e' && "erl"@[1] == 'r' && "erl"@[2] == 'l');
    assert("ex"@.len() == 2 && "ex"@[0] == 'e' && "ex"@[1] == 'x');
    assert("exs"@.len() == 3 && "exs"@[0] == 'e' && "exs"@[1] == 'x' && "exs"@[2] == 's');
    assert("hs"@.len() == 2 && "hs"@[0] == 'h' && "hs"@[1] == 's');
    assert("lua"@.len() == 3 && "lua"@[0] == 'l' && "lua"@[1] == 'u' && "lua"@[2] == 'a');
    assert("pl"@.len() == 2 && "pl"@[0] == 'p' && "pl"@[1] == 'l');
    assert("pm"@.len() == 2 && "pm"@[0] == 'p' && "pm"@[1] == 'm');
    assert("sh"@.len() == 2 && "sh"@[0] == 's' && "sh"@[1] == 'h');
    assert("bash"@.len() == 4 && "bash"@[0] == 'b' && "bash"@[1] == 'a' && "bash"@[2] == 's' && "bash"@[3] == 'h');
    assert("zsh"@.len() == 3 && "zsh"@[0] == 'z' && "zsh"@[1] == 's' && "zsh"@[2] == 'h');
    assert("fish"@.len() == 4 && "fish"@[0] == 'f' && "fish"@[1] == 'i' && "fish"@[2] == 's' && "fish"@[3] == 'h');
    assert("ps1"@.len() == 3 && "ps1"@[0] == 'p' && "ps1"@[1] == 's' && "ps1"@[2] == '1');
    assert("bat"@.len() == 3 && "bat"@[0] == 'b' && "bat"@[1] == 'a' && "bat"@[2] == 't');
    assert("cmd"@.len() == 3 && "cmd"@[0] == 'c' && "cmd"@[1] == 'm' && "cmd"@[2] == 'd');
    assert("zig"@.len() == 3 && "zig"@[0] == 'z' && "zig"@[1] == 'i' && "zig"@[2] == 'g');
    assert("nim"@.len() == 3 && "nim"@[0] == 'n' && "nim"@[1] == 'i' && "nim"@[2] == 'm');
    assert("v"@.len() == 1 && "v"@[0] == 'v');
    assert("d"@.len() == 1 && "d"@[0] == 'd');
    assert("f90"@.len() == 3 && "f90"@[0] == 'f' && "f90"@[1] == '9' && "f90"@[2] == '0');
    assert("f95"@.len() == 3 && "f95"@[0] == 'f' && "f95"@[1] == '9' && "f95"@[2] == '5');
    assert("jl"@.len() == 2 && "jl"@[0] == 'j' && "jl"@[1] == 'l');
    assert("ml"@.len() == 2 && "ml"@[0] == 'm' && "ml"@[1] == 'l');
    assert("mli"@.len() == 3 && "mli"@[0] == 'm' && "mli"@[1] == 'l' && "mli"@[2] == 'i');
    assert("fs"@.len() == 2 && "fs"@[0] == 'f' && "fs"@[1] == 's');
    assert("fsx"@.len() == 3 && "fsx"@[0] == 'f' && "fsx"@[1] == 's' && "fsx"@[2] == 'x');
    assert("dart"@.len() == 4 && "dart"@[0] == 'd' && "dart"@[1] == 'a' && "dart"@[2] == 'r' && "dart"@[3] == 't');
    assert("groovy"@.len() == 6 && "groovy"@[0] == 'g' && "groovy"@[1] == 'r' && "groovy"@[2] == 'o' && "groovy"@[3] == 'o' && "groovy"@[4] == 'v' && "groovy"@[5] == 'y');
    assert("vb"@.len() == 2 && "vb"@[0] == 'v' && "vb"@[1] == 'b');
    assert("vbs"@.len() == 3 && "vbs"@[0] == 'v' && "vbs"@[1] == 'b' && "vbs"@[2] == 's');
    assert("asm"@.len() == 3 && "asm"@[0] == 'a' && "asm"@[1] == 's' && "asm"@[2] == 'm');
    assert("s"@.len() == 1 && "s"@[0] == 's');
    assert("S"@.len() == 1 && "S"@[0] == 'S');
}

/// Law: configuration-file extensions are config.
pub proof fn lemma_config_extensions()
    ensures
        categorize_spec("toml"@) == ExtensionCategory::Config,
        categorize_spec("json"@) == ExtensionCategory::Config,
        categorize_spec("yaml"@) == ExtensionCategory::Config,
        categorize_spec("yml"@) == ExtensionCategory::Config,
        categorize_spec("xml"@) == ExtensionCategory::Config,
        categorize_spec("ini"@) == ExtensionCategory::Config,
        categorize_spec("cfg"@) == ExtensionCategory::Config,
        categorize_spec("conf"@) == ExtensionCategory::Config,
        categorize_spec("env"@) == ExtensionCategory::Config,
        categorize_spec("properties"@) == ExtensionCategory::Config,
        categorize_spec("plist"@) == ExtensionCategory::Config,
        categorize_spec("editorconfig"@) == ExtensionCategory::Config,
        categorize_spec("eslintrc"@) == ExtensionCategory::Config,
        categorize_spec("prettierrc"@) == ExtensionCategory::Config,
        categorize_spec("babelrc"@) == ExtensionCategory::Config,
        categorize_spec("nvmrc"@) == ExtensionCategory::Config,
        categorize_spec("dockerignore"@) == ExtensionCategory::Config,
        categorize_spec("gitattributes"@) == ExtensionCategory::Config,
{
    reveal_strlit("rs");
    reveal_strlit("py");
    reveal_strlit("js");
    reveal_strlit("jsx");
    reveal_strlit("ts");
    reveal_strlit("tsx");
    reveal_strlit("c");
    reveal_strlit("h");
    reveal_strlit("cpp");
    reveal_strlit("cc");
    reveal_strlit("cxx");
    reveal_strlit("hpp");
    reveal_strlit("hxx");
    reveal_strlit("hh");
    reveal_strlit("cs");
    reveal_strlit("java");
    reveal_strlit("kt");
    reveal_strlit("kts");
    reveal_strlit("go");
    reveal_strlit("rb");
    reveal_strlit("php");
    reveal_strlit("swift");
    reveal_strlit("m");
    reveal_strlit("mm");
    reveal_strlit("r");
    reveal_strlit("R");
    reveal_strlit("scala");
    reveal_strlit("clj");
    reveal_strlit("cljs");
    reveal_strlit("erl");
    reveal_strlit("ex");
    reveal_strlit("exs");
    reveal_strlit("hs");
    reveal_strlit("lua");
    reveal_strlit("pl");
    reveal_strlit("pm");
    reveal_strlit("sh");
    reveal_strlit("bash");
    reveal_strlit("zsh");
    reveal_strlit("fish");
    reveal_strlit("ps1");
    reveal_strlit("bat");
    reveal_strlit("cmd");
    reveal_strlit("zig");
    reveal_strlit("nim");
    reveal_strlit("v");
    reveal_strlit("d");
    reveal_strlit("f90");
    reveal_strlit("f95");
    reveal_strlit("jl");
    reveal_strlit("ml");
    reveal_strlit("mli");
    reveal_strlit("fs");
    reveal_strlit("fsx");
    reveal_strlit("dart");
    reveal_strlit("groovy");
    reveal_strlit("vb");
    reveal_strlit("vbs");
    reveal_strlit("asm");
    reveal_strlit("s");
    reveal_strlit("S");
    reveal_strlit("toml");
    reveal_strlit("json");
    reveal_strlit("yaml");
    reveal_strlit("yml");
    reveal_strlit("xml");
    reveal_strlit("ini");
    reveal_strlit("cfg");
    reveal_strlit("conf");
    reveal_strlit("env");
    reveal_strlit("properties");
    reveal_strlit("plist");
    reveal_strlit("editorconfig");
    reveal_strlit("eslintrc");
    reveal_strlit("prettierrc");
    reveal_strlit("babelrc");
    reveal_strlit("nvmrc");
    reveal_strlit("dockerignore");
    reveal_strlit("gitattributes");
    assert("rs"@.len() == 2 && "rs"@[0] == 'r' && "rs"@[1] == 's');
    assert("py"@.len() == 2 && "py"@[0] == 'p' && "py"@[1] == 'y');
    assert("js"@.len() == 2 && "js"@[0] == 'j' && "js"@[1] == 's');
    assert("jsx"@.len() == 3 && "jsx"@[0] == 'j' && "jsx"@[1] == 's' && "jsx"@[2] == 'x');
    assert("ts"@.len() == 2 && "ts"@[0] == 't' && "ts"@[1] == 's');
    assert("tsx"@.len() == 3 && "tsx"@[0] == 't' && "tsx"@[1] == 's' && "tsx"@[2] == 'x');
    assert("c"@.len() == 1 && "c"@[0] == 'c');
    assert("h"@.len() == 1 && "h"@[0] == 'h');
    assert("cpp"@.len() == 3 && "cpp"@[0] == 'c' && "cpp"@[1] == 'p' && "cpp"@[2] == 'p');
    assert("cc"@.len() == 2 && "cc"@[0] == 'c' && "cc"@[1] == 'c');
    assert("cxx"@.len() == 3 && "cxx"@[0] == 'c' && "cxx"@[1] == 'x' && "cxx"@[2] == 'x');
    assert("hpp"@.len() == 3 && "hpp"@[0] == 'h' && "hpp"@[1] == 'p' && "hpp"@[2] == 'p');
    assert("hxx"@.len() == 3 && "hxx"@[0] == 'h' && "hxx"@[1] == 'x' && "hxx"@[2] == 'x');
    assert("hh"@.len() == 2 && "hh"@[0] == 'h' && "hh"@[1] == 'h');
    assert("cs"@.len() == 2 && "cs"@[0] == 'c' && "cs"@[1] == 's');
    assert("java"@.len() == 4 && "java"@[0] == 'j' && "java"@[1] == 'a' && "java"@[2] == 'v' && "java"@[3] == 'a');
    assert("kt"@.len() == 2 && "kt"@[0] == 'k' && "kt"@[1] == 't');
    assert("kts"@.len() == 3 && "kts"@[0] == 'k' && "kts"@[1] == 't' && "kts"@[2] == 's');
    assert("go"@.len() == 2 && "go"@[0] == 'g' && "go"@[1] == 'o');
    assert("rb"@.len() == 2 && "rb"@[0] == 'r' && "rb"@[1] == 'b');
    assert("php"@.len() == 3 && "php"@[0] == 'p' && "php"@[1] == 'h' && "php"@[2] == 'p');
    assert("swift"@.len() == 5 && "swift"@[0] == 's' && "swift"@[1] == 'w' && "swift"@[2] == 'i' && "swift"@[3] == 'f' && "swift"@[4] == 't');
    assert("m"@.len() == 1 && "m"@[0] == 'm');
    assert("mm"@.len() == 2 && "mm"@[0] == 'm' && "mm"@[1] == 'm');
    assert("r"@.len() == 1 && "r"@[0] == 'r');
    assert("R"@.len() == 1 && "R"@[0] == 'R');
    assert("scala"@.len() == 5 && "scala"@[0] == 's' && "scala"@[1] == 'c' && "scala"@[2] == 'a' && "scala"@[3] == 'l' && "scala"@[4] == 'a');
    assert("clj"@.len() == 3 && "clj"@[0] == 'c' && "clj"@[1] == 'l' && "clj"@[2] == 'j');
    assert("cljs"@.len() == 4 && "cljs"@[0] == 'c' && "cljs"@[1] == 'l' && "cljs"@[2] == 'j' && "cljs"@[3] == 's');
    assert("erl"@.len() == 3 && "erl"@[0] == 'e' && "erl"@[1] == 'r' && "erl"@[2] == 'l');
    assert("ex"@.len() == 2 && "ex"@[0] == 'e' && "ex"@[1] == 'x');
    assert("exs"@.len() == 3 && "exs"@[0] == 'e' && "exs"@[1] == 'x' && "exs"@[2] == 's');
    assert("hs"@.len() == 2 && "hs"@[0] == 'h' && "hs"@[1] == 's');
    assert("lua"@.len() == 3 && "lua"@[0] == 'l' && "lua"@[1] == 'u' && "lua"@[2] == 'a');
    assert("pl"@.len() == 2 && "pl"@[0] == 'p' && "pl"@[1] == 'l');
    assert("pm"@.len() == 2 && "pm"@[0] == 'p' && "pm"@[1] == 'm');
    assert("sh"@.len() == 2 && "sh"@[0] == 's' && "sh"@[1] == 'h');
    assert("bash"@.len() == 4 && "bash"@[0] == 'b' && "bash"@[1] == 'a' && "bash"@[2] == 's' && "bash"@[3] == 'h');
    assert("zsh"@.len() == 3 && "zsh"@[0] == 'z' && "zsh"@[1] == 's' && "zsh"@[2] == 'h');
    assert("fish"@.len() == 4 && "fish"@[0] == 'f' && "fish"@[1] == 'i' && "fish"@[2] == 's' && "fish"@[3] == 'h');
    assert("ps1"@.len() == 3 && "ps1"@[0] == 'p' && "ps1"@[1] == 's' && "ps1"@[2] == '1');
    assert("bat"@.len() == 3 && "bat"@[0] == 'b' && "bat"@[1] == 'a' && "bat"@[2] == 't');
    assert("cmd"@.len() == 3 && "cmd"@[0] == 'c' && "cmd"@[1] == 'm' && "cmd"@[2] == 'd');
    assert("zig"@.len() == 3 && "zig"@[0] == 'z' && "zig"@[1] == 'i' && "zig"@[2] == 'g');
    assert("nim"@.len() == 3 && "nim"@[0] == 'n' && "nim"@[1] == 'i' && "nim"@[2] == 'm');
    assert("v"@.len() == 1 && "v"@[0] == 'v');
    assert("d"@.len() == 1 && "d"@[0] == 'd');
    assert("f90"@.len() == 3 && "f90"@[0] == 'f' && "f90"@[1] == '9' && "f90"@[2] == '0');
    assert("f95"@.len() == 3 && "f95"@[0] == 'f' && "f95"@[1] == '9' && "f95"@[2] == '5');
    assert("jl"@.len() == 2 && "jl"@[0] == 'j' && "jl"@[1] == 'l');
    assert("ml"@.len() == 2 && "ml"@[0] == 'm' && "ml"@[1] == 'l');
    assert("mli"@.len() == 3 && "mli"@[0] == 'm' && "mli"@[1] == 'l' && "mli"@[2] == 'i');
    assert("fs"@.len() == 2 && "fs"@[0] == 'f' && "fs"@[1] == 's');
    assert("fsx"@.len() == 3 && "fsx"@[0] == 'f' && "fsx"@[1] == 's' && "fsx"@[2] == 'x');
    assert("dart"@.len() == 4 && "dart"@[0] == 'd' && "dart"@[1] == 'a' && "dart"@[2] == 'r' && "dart"@[3] == 't');
    assert("groovy"@.len() == 6 && "groovy"@[0] == 'g' && "groovy"@[1] == 'r' && "groovy"@[2] == 'o' && "groovy"@[3] == 'o' && "groovy"@[4] == 'v' && "groovy"@[5] == 'y');
    assert("vb"@.len() == 2 && "vb"@[0] == 'v' && "vb"@[1] == 'b');
    assert("vbs"@.len() == 3 && "vbs"@[0] == 'v' && "vbs"@[1] == 'b' && "vbs"@[2] == 's');
    assert("asm"@.len() == 3 && "asm"@[0] == 'a' && "asm"@[1] == 's' && "asm"@[2] == 'm');
    assert("s"@.len() == 1 && "s"@[0] == 's');
    assert("S"@.len() == 1 && "S"@[0] == 'S');
    assert("toml"@.len() == 4 && "toml"@[0] == 't' && "toml"@[1] == 'o' && "toml"@[2] == 'm' && "toml"@[3] == 'l');
    assert("json"@.len() == 4 && "json"@[0] == 'j' && "json"@[1] == 's' && "json"@[2] == 'o' && "json"@[3] == 'n');
    assert("yaml"@.len() == 4 && "yaml"@[0] == 'y' && "yaml"@[1] == 'a' && "yaml"@[2] == 'm' && "yaml"@[3] == 'l');
    assert("yml"@.len() == 3 && "yml"@[0] == 'y' && "yml"@[1] == 'm' && "yml"@[2] == 'l');
    assert("xml"@.len() == 3 && "xml"@[0] == 'x' && "xml"@[1] == 'm' && "xml"@[2] == 'l');
    assert("ini"@.len() == 3 && "ini"@[0] == 'i' && "ini"@[1] == 'n' && "ini"@[2] == 'i');
    assert("cfg"@.len() == 3 && "cfg"@[0] == 'c' && "cfg"@[1] == 'f' && "cfg"@[2] == 'g');
    assert("conf"@.len() == 4 && "conf"@[0] == 'c' && "conf"@[1] == 'o' && "conf"@[2] == 'n' && "conf"@[3] == 'f');
    assert("env"@.len() == 3 && "env"@[0] == 'e' && "env"@[1] == 'n' && "env"@[2] == 'v');
    assert("properties"@.len() == 10 && "properties"@[0] == 'p' && "properties"@[1] == 'r' && "properties"@[2] == 'o' && "properties"@[3] == 'p' && "properties"@[4] == 'e' && "properties"@[5] == 'r' && "properties"@[6] == 't' && "properties"@[7] == 'i' && "properties"@[8] == 'e' && "properties"@[9] == 's');
    assert("plist"@.len() == 5 && "plist"@[0] == 'p' && "plist"@[1] == 'l' && "plist"@[2] == 'i' && "plist"@[3] == 's' && "plist"@[4] == 't');
    assert("editorconfig"@.len() == 12 && "editorconfig"@[0] == 'e' && "editorconfig"@[1] == 'd' && "editorconfig"@[2] == 'i' && "editorconfig"@[3] == 't' && "editorconfig"@[4] == 'o' && "editorconfig"@[5] == 'r' && "editorconfig"@[6] == 'c' && "editorconfig"@[7] == 'o' && "editorconfig"@[8] == 'n' && "editorconfig"@[9] == 'f' && "editorconfig"@[10] == 'i' && "editorconfig"@[11] == 'g');
    assert("eslintrc"@.len() == 8 && "eslintrc"@[0] == 'e' && "eslintrc"@[1] == 's' && "eslintrc"@[2] == 'l' && "eslintrc"@[3] == 'i' && "eslintrc"@[4] == 'n' && "eslintrc"@[5] == 't' && "eslintrc"@[6] == 'r' && "eslintrc"@[7] == 'c');
    assert("prettierrc"@.len() == 10 && "prettierrc"@[0] == 'p' && "prettierrc"@[1] == 'r' && "prettierrc"@[2] == 'e' && "prettierrc"@[3] == 't' && "prettierrc"@[4] == 't' && "prettierrc"@[5] == 'i' && "prettierrc"@[6] == 'e' && "prettierrc"@[7] == 'r' && "prettierrc"@[8] == 'r' && "prettierrc"@[9] == 'c');
    assert("babelrc"@.len() == 7 && "babelrc"@[0] == 'b' && "babelrc"@[1] == 'a' && "babelrc"@[2] == 'b' && "babelrc"@[3] == 'e' && "babelrc"@[4] == 'l' && "babelrc"@[5] == 'r' && "babelrc"@[6] == 'c');
    assert("nvmrc"@.len() == 5 && "nvmrc"@[0] == 'n' && "nvmrc"@[1] == 'v' && "nvmrc"@[2] == 'm' && "nvmrc"@[3] == 'r' && "nvmrc"@[4] == 'c');
    assert("dockerignore"@.len() == 12 && "dockerignore"@[0] == 'd' && "dockerignore"@[1] == 'o' && "dockerignore"@[2] == 'c' && "dockerignore"@[3] == 'k' && "dockerignore"@[4] == 'e' && "dockerignore"@[5] == 'r' && "dockerignore"@[6] == 'i' && "dockerignore"@[7] == 'g' && "dockerignore"@[8] == 'n' && "dockerignore"@[9] == 'o' && "dockerignore"@[10] == 'r' && "dockerignore"@[11] == 'e');
    assert("gitattributes"@.len() == 13 && "gitattributes"@[0] == 'g' && "gitattributes"@[1] == 'i' && "gitattributes"@[2] == 't' && "gitattributes"@[3] == 'a' && "gitattributes"@[4] == 't' && "gitattributes"@[5] == 't' && "gitattributes"@[6] == 'r' && "gitattributes"@[7] == 'i' && "gitattributes"@[8] == 'b' && "gitattributes"@[9] == 'u' && "gitattributes"@[10] == 't' && "gitattributes"@[11] == 'e' && "gitattributes"@[12] == 's');
}

/// Law: prose and documentation extensions are docs.
pub proof fn lemma_docs_extensions()
    ensures
        categorize_spec("md"@) == ExtensionCategory::Docs,
        categorize_spec("markdown"@) == ExtensionCategory::Docs,
        categorize_spec("txt"@) == ExtensionCategory::Docs,
        categorize_spec("rst"@) == ExtensionCategory::Docs,
        categorize_spec("adoc"@) == ExtensionCategory::Docs,
        categorize_spec("org"@) == ExtensionCategory::Docs,
        categorize_spec("tex"@) == ExtensionCategory::Docs,
        categorize_spec("latex"@) == ExtensionCategory::Docs,
        categorize_spec("rdoc"@) == ExtensionCategory::Docs,
        categorize_spec("pod"@) == ExtensionCategory::Docs,
{
    reveal_strlit("rs");
    reveal_strlit("py");
    reveal_strlit("js");
    reveal_strlit("jsx");
    reveal_strlit("ts");
    reveal_strlit("tsx");
    reveal_strlit("c");
    reveal_strlit("h");
    reveal_strlit("cpp");
    reveal_strlit("cc");
    reveal_strlit("cxx");
    reveal_strlit("hpp");
    reveal_strlit("hxx");
    reveal_strlit("hh");
    reveal_strlit("cs");
    reveal_strlit("java");
    reveal_strlit("kt");
    reveal_strlit("kts");
    reveal_strlit("go");
    reveal_strlit("rb");
    reveal_strlit("php");
    reveal_strlit("swift");
    reveal_strlit("m");
    reveal_strlit("mm");
    reveal_strlit("r");
    reveal_strlit("R");
    reveal_strlit("scala");
    reveal_strlit("clj");
    reveal_strlit("cljs");
    reveal_strlit("erl");
    reveal_strlit("ex");
    reveal_strlit("exs");
    reveal_strlit("hs");
    reveal_strlit("lua");
    reveal_strlit("pl");
    reveal_strlit("pm");
    reveal_strlit("sh");
    reveal_strlit("bash");
    reveal_strlit("zsh");
    reveal_strlit("fish");
    reveal_strlit("ps1");
    reveal_strlit("bat");
    reveal_strlit("cmd");
    reveal_strlit("zig");
    reveal_strlit("nim");
    reveal_strlit("v");
    reveal_strlit("d");
    reveal_strlit("f90");
    reveal_strlit("f95");
    reveal_strlit("jl");
    reveal_strlit("ml");
    reveal_strlit("mli");
    reveal_strlit("fs");
    reveal_strlit("fsx");
    reveal_strlit("dart");
    reveal_strlit("groovy");
    reveal_strlit("vb");
    reveal_strlit("vbs");
    reveal_strlit("asm");
    reveal_strlit("s");
    reveal_strlit("S");
    reveal_strlit("toml");
    reveal_strlit("json");
    reveal_strlit("yaml");
    reveal_strlit("yml");
    reveal_strlit("xml");
    reveal_strlit("ini");
    reveal_strlit("cfg");
    reveal_strlit("conf");
    reveal_strlit("env");
    reveal_strlit("properties");
    reveal_strlit("plist");
    reveal_strlit("editorconfig");
    reveal_strlit("eslintrc");
    reveal_strlit("prettierrc");
    reveal_strlit("babelrc");
    reveal_strlit("nvmrc");
    reveal_strlit("dockerignore");
    reveal_strlit("gitattributes");
    reveal_strlit("md");
    reveal_strlit("markdown");
    reveal_strlit("txt");
    reveal_strlit("rst");
    reveal_strlit("adoc");
    reveal_strlit("org");
    reveal_strlit("tex");
    reveal_strlit("latex");
    reveal_strlit("rdoc");
    reveal_strlit("pod");
    assert("rs"@.len() == 2 && "rs"@[0] == 'r' && "rs"@[1] == 's');
    assert("py"@.len() == 2 && "py"@[0] == 'p' && "py"@[1] == 'y');
    assert("js"@.len() == 2 && "js"@[0] == 'j' && "js"@[1] == 's');
    assert("jsx"@.len() == 3 && "jsx"@[0] == 'j' && "jsx"@[1] == 's' && "jsx"@[2] == 'x');
    assert("ts"@.len() == 2 && "ts"@[0] == 't' && "ts"@[1] == 's');
    assert("tsx"@.len() == 3 && "tsx"@[0] == 't' && "tsx"@[1] == 's' && "tsx"@[2] == 'x');
    assert("c"@.len() == 1 && "c"@[0] == 'c');
    assert("h"@.len() == 1 && "h"@[0] == 'h');
    assert("cpp"@.len() == 3 && "cpp"@[0] == 'c' && "cpp"@[1] == 'p' && "cpp"@[2] == 'p');
    assert("cc"@.len() == 2 && "cc"@[0] == 'c' && "cc"@[1] == 'c');
    assert("cxx"@.len() == 3 && "cxx"@[0] == 'c' && "cxx"@[1] == 'x' && "cxx"@[2] == 'x');
    assert("hpp"@.len() == 3 && "hpp"@[0] == 'h' && "hpp"@[1] == 'p' && "hpp"@[2] == 'p');
    assert("hxx"@.len() == 3 && "hxx"@[0] == 'h' && "hxx"@[1] == 'x' && "hxx"@[2] == 'x');
    assert("hh"@.len() == 2 && "hh"@[0] == 'h' && "hh"@[1] == 'h');
    assert("cs"@.len() == 2 && "cs"@[0] == 'c' && "cs"@[1] == 's');
    assert("java"@.len() == 4 && "java"@[0] == 'j' && "java"@[1] == 'a' && "java"@[2] == 'v' && "java"@[3] == 'a');
    assert("kt"@.len() == 2 && "kt"@[0] == 'k' && "kt"@[1] == 't');
    assert("kts"@.len() == 3 && "kts"@[0] == 'k' && "kts"@[1] == 't' && "kts"@[2] == 's');
    assert("go"@.len() == 2 && "go"@[0] == 'g' && "go"@[1] == 'o');
    assert("rb"@.len() == 2 && "rb"@[0] == 'r' && "rb"@[1] == 'b');
    assert("php"@.len() == 3 && "php"@[0] == 'p' && "php"@[1] == 'h' && "php"@[2] == 'p');
    assert("swift"@.len() == 5 && "swift"@[0] == 's' && "swift"@[1] == 'w' && "swift"@[2] == 'i' && "swift"@[3] == 'f' && "swift"@[4] == 't');
    assert("m"@.len() == 1 && "m"@[0] == 'm');
    assert("mm"@.len() == 2 && "mm"@[0] == 'm' && "mm"@[1] == 'm');
    assert("r"@.len() == 1 && "r"@[0] == 'r');
    assert("R"@.len() == 1 && "R"@[0] == 'R');
    assert("scala"@.len() == 5 && "scala"@[0] == 's' && "scala"@[1] == 'c' && "scala"@[2] == 'a' && "scala"@[3] == 'l' && "scala"@[4] == 'a');
    assert("clj"@.len() == 3 && "clj"@[0] == 'c' && "clj"@[1] == 'l' && "clj"@[2] == 'j');
    assert("cljs"@.len() == 4 && "cljs"@[0] == 'c' && "cljs"@[1] == 'l' && "cljs"@[2] == 'j' && "cljs"@[3] == 's');
    assert("erl"@.len() == 3 && "erl"@[0] == 'e' && "erl"@[1] == 'r' && "erl"@[2] == 'l');
    assert("ex"@.len() == 2 && "ex"@[0] == 'e' && "ex"@[1] == 'x');
    assert("exs"@.len() == 3 && "exs"@[0] == 'e' && "exs"@[1] == 'x' && "exs"@[2] == 's');
    assert("hs"@.len() == 2 && "hs"@[0] == 'h' && "hs"@[1] == 's');
    assert("lua"@.len() == 3 && "lua"@[0] == 'l' && "lua"@[1] == 'u' && "lua"@[2] == 'a');
    assert("pl"@.len() == 2 && "pl"@[0] == 'p' && "pl"@[1] == 'l');
    assert("pm"@.len() == 2 && "pm"@[0] == 'p' && "pm"@[1] == 'm');
    assert("sh"@.len() == 2 && "sh"@[0] == 's' && "sh"@[1] == 'h');
    assert("bash"@.len() == 4 && "bash"@[0] == 'b' && "bash"@[1] == 'a' && "bash"@[2] == 's' && "bash"@[3] == 'h');
    assert("zsh"@.len() == 3 && "zsh"@[0] == 'z' && "zsh"@[1] == 's' && "zsh"@[2] == 'h');
    assert("fish"@.len() == 4 && "fish"@[0] == 'f' && "fish"@[1] == 'i' && "fish"@[2] == 's' && "fish"@[3] == 'h');
    assert("ps1"@.len() == 3 && "ps1"@[0] == 'p' && "ps1"@[1] == 's' && "ps1"@[2] == '1');
    assert("bat"@.len() == 3 && "bat"@[0] == 'b' && "bat"@[1] == 'a' && "bat"@[2] == 't');
    assert("cmd"@.len() == 3 && "cmd"@[0] == 'c' && "cmd"@[1] == 'm' && "cmd"@[2] == 'd');
    assert("zig"@.len() == 3 && "zig"@[0] == 'z' && "zig"@[1] == 'i' && "zig"@[2] == 'g');
    assert("nim"@.len() == 3 && "nim"@[0] == 'n' && "nim"@[1] == 'i' && "nim"@[2] == 'm');
    assert("v"@.len() == 1 && "v"@[0] == 'v');
    assert("d"@.len() == 1 && "d"@[0] == 'd');
    assert("f90"@.len() == 3 && "f90"@[0] == 'f' && "f90"@[1] == '9' && "f90"@[2] == '0');
    assert("f95"@.len() == 3 && "f95"@[0] == 'f' && "f95"@[1] == '9' && "f95"@[2] == '5');
    assert("jl"@.len() == 2 && "jl"@[0] == 'j' && "jl"@[1] == 'l');
    assert("ml"@.len() == 2 && "ml"@[0] == 'm' && "ml"@[1] == 'l');
    assert("mli"@.len() == 3 && "mli"@[0] == 'm' && "mli"@[1] == 'l' && "mli"@[2] == 'i');
    assert("fs"@.len() == 2 && "fs"@[0] == 'f' && "fs"@[1] == 's');
    assert("fsx"@.len() == 3 && "fsx"@[0] == 'f' && "fsx"@[1] == 's' && "fsx"@[2] == 'x');
    assert("dart"@.len() == 4 && "dart"@[0] == 'd' && "dart"@[1] == 'a' && "dart"@[2] == 'r' && "dart"@[3] == 't');
    assert("groovy"@.len() == 6 && "groovy"@[0] == 'g' && "groovy"@[1] == 'r' && "groovy"@[2] == 'o' && "groovy"@[3] == 'o' && "groovy"@[4] == 'v' && "groovy"@[5] == 'y');
    assert("vb"@.len() == 2 && "vb"@[0] == 'v' && "vb"@[1] == 'b');
    assert("vbs"@.len() == 3 && "vbs"@[0] == 'v' && "vbs"@[1] == 'b' && "vbs"@[2] == 's');
    assert("asm"@.len() == 3 && "asm"@[0] == 'a' && "asm"@[1] == 's' && "asm"@[2] == 'm');
    assert("s"@.len() == 1 && "s"@[0] == 's');
    assert("S"@.len() == 1 && "S"@[0] == 'S');
    assert("toml"@.len() == 4 && "toml"@[0] == 't' && "toml"@[1] == 'o' && "toml"@[2] == 'm' && "toml"@[3] == 'l');
    assert("json"@.len() == 4 && "json"@[0] == 'j' && "json"@[1] == 's' && "json"@[2] == 'o' && "json"@[3] == 'n');
    assert("yaml"@.len() == 4 && "yaml"@[0] == 'y' && "yaml"@[1] == 'a' && "yaml"@[2] == 'm' && "yaml"@[3] == 'l');
    assert("yml"@.len() == 3 && "yml"@[0] == 'y' && "yml"@[1] == 'm' && "yml"@[2] == 'l');
    assert("xml"@.len() == 3 && "xml"@[0] == 'x' && "xml"@[1] == 'm' && "xml"@[2] == 'l');
    assert("ini"@.len() == 3 && "ini"@[0] == 'i' && "ini"@[1] == 'n' && "ini"@[2] == 'i');
    assert("cfg"@.len() == 3 && "cfg"@[0] == 'c' && "cfg"@[1] == 'f' && "cfg"@[2] == 'g');
    assert("conf"@.len() == 4 && "conf"@[0] == 'c' && "conf"@[1] == 'o' && "conf"@[2] == 'n' && "conf"@[3] == 'f');
    assert("env"@.len() == 3 && "env"@[0] == 'e' && "env"@[1] == 'n' && "env"@[2] == 'v');
    assert("properties"@.len() == 10 && "properties"@[0] == 'p' && "properties"@[1] == 'r' && "properties"@[2] == 'o' && "properties"@[3] == 'p' && "properties"@[4] == 'e' && "properties"@[5] == 'r' && "properties"@[6] == 't' && "properties"@[7] == 'i' && "properties"@[8] == 'e' && "properties"@[9] == 's');
    assert("plist"@.len() == 5 && "plist"@[0] == 'p' && "plist"@[1] == 'l' && "plist"@[2] == 'i' && "plist"@[3] == 's' && "plist"@[4] == 't');
    assert("editorconfig"@.len() == 12 && "editorconfig"@[0] == 'e' && "editorconfig"@[1] == 'd' && "editorconfig"@[2] == 'i' && "editorconfig"@[3] == 't' && "editorconfig"@[4] == 'o' && "editorconfig"@[5] == 'r' && "editorconfig"@[6] == 'c' && "editorconfig"@[7] == 'o' && "editorconfig"@[8] == 'n' && "editorconfig"@[9] == 'f' && "editorconfig"@[10] == 'i' && "editorconfig"@[11] == 'g');
    assert("eslintrc"@.len() == 8 && "eslintrc"@[0] == 'e' && "eslintrc"@[1] == 's' && "eslintrc"@[2] == 'l' && "eslintrc"@[3] == 'i' && "eslintrc"@[4] == 'n' && "eslintrc"@[5] == 't' && "eslintrc"@[6] == 'r' && "eslintrc"@[7] == 'c');
    assert("prettierrc"@.len() == 10 && "prettierrc"@[0] == 'p' && "prettierrc"@[1] == 'r' && "prettierrc"@[2] == 'e' && "prettierrc"@[3] == 't' && "prettierrc"@[4] == 't' && "prettierrc"@[5] == 'i' && "prettierrc"@[6] == 'e' && "prettierrc"@[7] == 'r' && "prettierrc"@[8] == 'r' && "prettierrc"@[9] == 'c');
    assert("babelrc"@.len() == 7 && "babelrc"@[0] == 'b' && "babelrc"@[1] == 'a' && "babelrc"@[2] == 'b' && "babelrc"@[3] == 'e' && "babelrc"@[4] == 'l' && "babelrc"@[5] == 'r' && "babelrc"@[6] == 'c');
    assert("nvmrc"@.len() == 5 && "nvmrc"@[0] == 'n' && "nvmrc"@[1] == 'v' && "nvmrc"@[2] == 'm' && "nvmrc"@[3] == 'r' && "nvmrc"@[4] == 'c');
    assert("dockerignore"@.len() == 12 && "dockerignore"@[0] == 'd' && "dockerignore"@[1] == 'o' && "dockerignore"@[2] == 'c' && "dockerignore"@[3] == 'k' && "dockerignore"@[4] == 'e' && "dockerignore"@[5] == 'r' && "dockerignore"@[6] == 'i' && "dockerignore"@[7] == 'g' && "dockerignore"@[8] == 'n' && "dockerignore"@[9] == 'o' && "dockerignore"@[10] == 'r' && "dockerignore"@[11] == 'e');
    assert("gitattributes"@.len() == 13 && "gitattributes"@[0] == 'g' && "gitattributes"@[1] == 'i' && "gitattributes"@[2] == 't' && "gitattributes"@[3] == 'a' && "gitattributes"@[4] == 't' && "gitattributes"@[5] == 't' && "gitattributes"@[6] == 'r' && "gitattributes"@[7] == 'i' && "gitattributes"@[8] == 'b' && "gitattributes"@[9] == 'u' && "gitattributes"@[10] == 't' && "gitattributes"@[11] == 'e' && "gitattributes"@[12] == 's');
    assert("md"@.len() == 2 && "md"@[0] == 'm' && "md"@[1] == 'd');
    assert("markdown"@.len() == 8 && "markdown"@[0] == 'm' && "markdown"@[1] == 'a' && "markdown"@[2] == 'r' && "markdown"@[3] == 'k' && "markdown"@[4] == 'd' && "markdown"@[5] == 'o' && "markdown"@[6] == 'w' && "markdown"@[7] == 'n');
    assert("txt"@.len() == 3 && "txt"@[0] == 't' && "txt"@[1] == 'x' && "txt"@[2] == 't');
    assert("rst"@.len() == 3 && "rst"@[0] == 'r' && "rst"@[1] == 's' && "rst"@[2] == 't');
    assert("adoc"@.len() == 4 && "adoc"@[0] == 'a' && "adoc"@[1] == 'd' && "adoc"@[2] == 'o' && "adoc"@[3] == 'c');
    assert("org"@.len() == 3 && "org"@[0] == 'o' && "org"@[1] == 'r' && "org"@[2] == 'g');
    assert("tex"@.len() == 3 && "tex"@[0] == 't' && "tex"@[1] == 'e' && "tex"@[2] == 'x');
    assert("latex"@.len() == 5 && "latex"@[0] == 'l' && "latex"@[1] == 'a' && "latex"@[2] == 't' && "latex"@[3] == 'e' && "latex"@[4] == 'x');
    assert("rdoc"@.len() == 4 && "rdoc"@[0] == 'r' && "rdoc"@[1] == 'd' && "rdoc"@[2] == 'o' && "rdoc"@[3] == 'c');
    assert("pod"@.len() == 3 && "pod"@[0] == 'p' && "pod"@[1] == 'o' && "pod"@[2] == 'd');
}

/// Law: stylesheet extensions are styles.
pub proof fn lemma_styles_extensions()
    ensures
        categorize_spec("css"@) == ExtensionCategory::Styles,
        categorize_spec("scss"@) == ExtensionCategory::Styles,
        categorize_spec("sass"@) == ExtensionCategory::Styles,
        categorize_spec("less"@) == ExtensionCategory::Styles,
        categorize_spec("styl"@) == ExtensionCategory::Styles,
        categorize_spec("stylus"@) == ExtensionCategory::Styles,
        categorize_spec("pcss"@) == ExtensionCategory::Styles,
{
    reveal_strlit("rs");
    reveal_strlit("py");
    reveal_strlit("js");
    reveal_strlit("jsx");
    reveal_strlit("ts");
    reveal_strlit("tsx");
    reveal_strlit("c");
    reveal_strlit("h");
    reveal_strlit("cpp");
    reveal_strlit("cc");
    reveal_strlit("cxx");
    reveal_strlit("hpp");
    reveal_strlit("hxx");
    reveal_strlit("hh");
    reveal_strlit("cs");
    reveal_strlit("java");
    reveal_strlit("kt");
    reveal_strlit("kts");
    reveal_strlit("go");
    reveal_strlit("rb");
    reveal_strlit("php");
    reveal_strlit("swift");
    reveal_strlit("m");
    reveal_strlit("mm");
    reveal_strlit("r");
    reveal_strlit("R");
    reveal_strlit("scala");
    reveal_strlit("clj");
    reveal_strlit("cljs");
    reveal_strlit("erl");
    reveal_strlit("ex");
    reveal_strlit("exs");
    reveal_strlit("hs");
    reveal_strlit("lua");
    reveal_strlit("pl");
    reveal_strlit("pm");
    reveal_strlit("sh");
    reveal_strlit("bash");
    reveal_strlit("zsh");
    reveal_strlit("fish");
    reveal_strlit("ps1");
    reveal_strlit("bat");
    reveal_strlit("cmd");
    reveal_strlit("zig");
    reveal_strlit("nim");
    reveal_strlit("v");
    reveal_strlit("d");
    reveal_strlit("f90");
    reveal_strlit("f95");
    reveal_strlit("jl");
    reveal_strlit("ml");
    reveal_strlit("mli");
    reveal_strlit("fs");
    reveal_strlit("fsx");
    reveal_strlit("dart");
    reveal_strlit("groovy");
    reveal_strlit("vb");
    reveal_strlit("vbs");
    reveal_strlit("asm");
    reveal_strlit("s");
    reveal_strlit("S");
    reveal_strlit("toml");
    reveal_strlit("json");
    reveal_strlit("yaml");
    reveal_strlit("yml");
    reveal_strlit("xml");
    reveal_strlit("ini");
    reveal_strlit("cfg");
    reveal_strlit("conf");
    reveal_strlit("env");
    reveal_strlit("properties");
    reveal_strlit("plist");
    reveal_strlit("editorconfig");
    reveal_strlit("eslintrc");
    reveal_strlit("prettierrc");
    reveal_strlit("babelrc");
    reveal_strlit("nvmrc");
    reveal_strlit("dockerignore");
    reveal_strlit("gitattributes");
    reveal_strlit("md");
    reveal_strlit("markdown");
    reveal_strlit("txt");
    reveal_strlit("rst");
    reveal_strlit("adoc");
    reveal_strlit("org");
    reveal_strlit("tex");
    reveal_strlit("latex");
    reveal_strlit("rdoc");
    reveal_strlit("pod");
    reveal_strlit("css");
    reveal_strlit("scss");
    reveal_strlit("sass");
    reveal_strlit("less");
    reveal_strlit("styl");
    reveal_strlit("stylus");
    reveal_strlit("pcss");
    assert("rs"@.len() == 2 && "rs"@[0] == 'r' && "rs"@[1] == 's');
    assert("py"@.len() == 2 && "py"@[0] == 'p' && "py"@[1] == 'y');
    assert("js"@.len() == 2 && "js"@[0] == 'j' && "js"@[1] == 's');
    assert("jsx"@.len() == 3 && "jsx"@[0] == 'j' && "jsx"@[1] == 's' && "jsx"@[2] == 'x');
    assert("ts"@.len() == 2 && "ts"@[0] == 't' && "ts"@[1] == 's');
    assert("tsx"@.len() == 3 && "tsx"@[0] == 't' && "tsx"@[1] == 's' && "tsx"@[2] == 'x');
    assert("c"@.len() == 1 && "c"@[0] == 'c');
    assert("h"@.len() == 1 && "h"@[0] == 'h');
    assert("cpp"@.len() == 3 && "cpp"@[0] == 'c' && "cpp"@[1] == 'p' && "cpp"@[2] == 'p');
    assert("cc"@.len() == 2 && "cc"@[0] == 'c' && "cc"@[1] == 'c');
    assert("cxx"@.len() == 3 && "cxx"@[0] == 'c' && "cxx"@[1] == 'x' && "cxx"@[2] == 'x');
    assert("hpp"@.len() == 3 && "hpp"@[0] == 'h' && "hpp"@[1] == 'p' && "hpp"@[2] == 'p');
    assert("hxx"@.len() == 3 && "hxx"@[0] == 'h' && "hxx"@[1] == 'x' && "hxx"@[2] == 'x');
    assert("hh"@.len() == 2 && "hh"@[0] == 'h' && "hh"@[1] == 'h');
    assert("cs"@.len() == 2 && "cs"@[0] == 'c' && "cs"@[1] == 's');
    assert("java"@.len() == 4 && "java"@[0] == 'j' && "java"@[1] == 'a' && "java"@[2] == 'v' && "java"@[3] == 'a');
    assert("kt"@.len() == 2 && "kt"@[0] == 'k' && "kt"@[1] == 't');
    assert("kts"@.len() == 3 && "kts"@[0] == 'k' && "kts"@[1] == 't' && "kts"@[2] == 's');
    assert("go"@.len() == 2 && "go"@[0] == 'g' && "go"@[1] == 'o');
    assert("rb"@.len() == 2 && "rb"@[0] == 'r' && "rb"@[1] == 'b');
    assert("php"@.len() == 3 && "php"@[0] == 'p' && "php"@[1] == 'h' && "php"@[2] == 'p');
    assert("swift"@.len() == 5 && "swift"@[0] == 's' && "swift"@[1] == 'w' && "swift"@[2] == 'i' && "swift"@[3] == 'f' && "swift"@[4] == 't');
    assert("m"@.len() == 1 && "m"@[0] == 'm');
    assert("mm"@.len() == 2 && "mm"@[0] == 'm' && "mm"@[1] == 'm');
    assert("r"@.len() == 1 && "r"@[0] == 'r');
    assert("R"@.len() == 1 && "R"@[0] == 'R');
    assert("scala"@.len() == 5 && "scala"@[0] == 's' && "scala"@[1] == 'c' && "scala"@[2] == 'a' && "scala"@[3] == 'l' && "scala"@[4] == 'a');
    assert("clj"@.len() == 3 && "clj"@[0] == 'c' && "clj"@[1] == 'l' && "clj"@[2] == 'j');
    assert("cljs"@.len() == 4 && "cljs"@[0] == 'c' && "cljs"@[1] == 'l' && "cljs"@[2] == 'j' && "cljs"@[3] == 's');
    assert("erl"@.len() == 3 && "erl"@[0] == 'e' && "erl"@[1] == 'r' && "erl"@[2] == 'l');
    assert("ex"@.len() == 2 && "ex"@[0] == 'e' && "ex"@[1] == 'x');
    assert("exs"@.len() == 3 && "exs"@[0] == 'e' && "exs"@[1] == 'x' && "exs"@[2] == 's');
    assert("hs"@.len() == 2 && "hs"@[0] == 'h' && "hs"@[1] == 's');
    assert("lua"@.len() == 3 && "lua"@[0] == 'l' && "lua"@[1] == 'u' && "lua"@[2] == 'a');
    assert("pl"@.len() == 2 && "pl"@[0] == 'p' && "pl"@[1] == 'l');
    assert("pm"@.len() == 2 && "pm"@[0] == 'p' && "pm"@[1] == 'm');
    assert("sh"@.len() == 2 && "sh"@[0] == 's' && "sh"@[1] == 'h');
    assert("bash"@.len() == 4 && "bash"@[0] == 'b' && "bash"@[1] == 'a' && "bash"@[2] == 's' && "bash"@[3] == 'h');
    assert("zsh"@.len() == 3 && "zsh"@[0] == 'z' && "zsh"@[1] == 's' && "zsh"@[2] == 'h');
    assert("fish"@.len() == 4 && "fish"@[0] == 'f' && "fish"@[1] == 'i' && "fish"@[2] == 's' && "fish"@[3] == 'h');
    assert("ps1"@.len() == 3 && "ps1"@[0] == 'p' && "ps1"@[1] == 's' && "ps1"@[2] == '1');
    assert("bat"@.len() == 3 && "bat"@[0] == 'b' && "bat"@[1] == 'a' && "bat"@[2] == 't');
    assert("cmd"@.len() == 3 && "cmd"@[0] == 'c' && "cmd"@[1] == 'm' && "cmd"@[2] == 'd');
    assert("zig"@.len() == 3 && "zig"@[0] == 'z' && "zig"@[1] == 'i' && "zig"@[2] == 'g');
    assert("nim"@.len() == 3 && "nim"@[0] == 'n' && "nim"@[1] == 'i' && "nim"@[2] == 'm');
    assert("v"@.len() == 1 && "v"@[0] == 'v');
    assert("d"@.len() == 1 && "d"@[0] == 'd');
    assert("f90"@.len() == 3 && "f90"@[0] == 'f' && "f90"@[1] == '9' && "f90"@[2] == '0');
    assert("f95"@.len() == 3 && "f95"@[0] == 'f' && "f95"@[1] == '9' && "f95"@[2] == '5');
    assert("jl"@.len() == 2 && "jl"@[0] == 'j' && "jl"@[1] == 'l');
    assert("ml"@.len() == 2 && "ml"@[0] == 'm' && "ml"@[1] == 'l');
    assert("mli"@.len() == 3 && "mli"@[0] == 'm' && "mli"@[1] == 'l' && "mli"@[2] == 'i');
    assert("fs"@.len() == 2 && "fs"@[0] == 'f' && "fs"@[1] == 's');
    assert("fsx"@.len() == 3 && "fsx"@[0] == 'f' && "fsx"@[1] == 's' && "fsx"@[2] == 'x');
    assert("dart"@.len() == 4 && "dart"@[0] == 'd' && "dart"@[1] == 'a' && "dart"@[2] == 'r' && "dart"@[3] == 't');
    assert("groovy"@.len() == 6 && "groovy"@[0] == 'g' && "groovy"@[1] == 'r' && "groovy"@[2] == 'o' && "groovy"@[3] == 'o' && "groovy"@[4] == 'v' && "groovy"@[5] == 'y');
    assert("vb"@.len() == 2 && "vb"@[0] == 'v' && "vb"@[1] == 'b');
    assert("vbs"@.len() == 3 && "vbs"@[0] == 'v' && "vbs"@[1] == 'b' && "vbs"@[2] == 's');
    assert("asm"@.len() == 3 && "asm"@[0] == 'a' && "asm"@[1] == 's' && "asm"@[2] == 'm');
    assert("s"@.len() == 1 && "s"@[0] == 's');
    assert("S"@.len() == 1 && "S"@[0] == 'S');
    assert("toml"@.len() == 4 && "toml"@[0] == 't' && "toml"@[1] == 'o' && "toml"@[2] == 'm' && "toml"@[3] == 'l');
    assert("json"@.len() == 4 && "json"@[0] == 'j' && "json"@[1] == 's' && "json"@[2] == 'o' && "json"@[3] == 'n');
    assert("yaml"@.len() == 4 && "yaml"@[0] == 'y' && "yaml"@[1] == 'a' && "yaml"@[2] == 'm' && "yaml"@[3] == 'l');
    assert("yml"@.len() == 3 && "yml"@[0] == 'y' && "yml"@[1] == 'm' && "yml"@[2] == 'l');
    assert("xml"@.len() == 3 && "xml"@[0] == 'x' && "xml"@[1] == 'm' && "xml"@[2] == 'l');
    assert("ini"@.len() == 3 && "ini"@[0] == 'i' && "ini"@[1] == 'n' && "ini"@[2] == 'i');
    assert("cfg"@.len() == 3 && "cfg"@[0] == 'c' && "cfg"@[1] == 'f' && "cfg"@[2] == 'g');
    assert("conf"@.len() == 4 && "conf"@[0] == 'c' && "conf"@[1] == 'o' && "conf"@[2] == 'n' && "conf"@[3] == 'f');
    assert("env"@.len() == 3 && "env"@[0] == 'e' && "env"@[1] == 'n' && "env"@[2] == 'v');
    assert("properties"@.len() == 10 && "properties"@[0] == 'p' && "properties"@[1] == 'r' && "properties"@[2] == 'o' && "properties"@[3] == 'p' && "properties"@[4] == 'e' && "properties"@[5] == 'r' && "properties"@[6] == 't' && "properties"@[7] == 'i' && "properties"@[8] == 'e' && "properties"@[9] == 's');
    assert("plist"@.len() == 5 && "plist"@[0] == 'p' && "plist"@[1] == 'l' && "plist"@[2] == 'i' && "plist"@[3] == 's' && "plist"@[4] == 't');
    assert("editorconfig"@.len() == 12 && "editorconfig"@[0] == 'e' && "editorconfig"@[1] == 'd' && "editorconfig"@[2] == 'i' && "editorconfig"@[3] == 't' && "editorconfig"@[4] == 'o' && "editorconfig"@[5] == 'r' && "editorconfig"@[6] == 'c' && "editorconfig"@[7] == 'o' && "editorconfig"@[8] == 'n' && "editorconfig"@[9] == 'f' && "editorconfig"@[10] == 'i' && "editorconfig"@[11] == 'g');
    assert("eslintrc"@.len() == 8 && "eslintrc"@[0] == 'e' && "eslintrc"@[1] == 's' && "eslintrc"@[2] == 'l' && "eslintrc"@[3] == 'i' && "eslintrc"@[4] == 'n' && "eslintrc"@[5] == 't' && "eslintrc"@[6] == 'r' && "eslintrc"@[7] == 'c');
    assert("prettierrc"@.len() == 10 && "prettierrc"@[0] == 'p' && "prettierrc"@[1] == 'r' && "prettierrc"@[2] == 'e' && "prettierrc"@[3] == 't' && "prettierrc"@[4] == 't' && "prettierrc"@[5] == 'i' && "prettierrc"@[6] == 'e' && "prettierrc"@[7] == 'r' && "prettierrc"@[8] == 'r' && "prettierrc"@[9] == 'c');
    assert("babelrc"@.len() == 7 && "babelrc"@[0] == 'b' && "babelrc"@[1] == 'a' && "babelrc"@[2] == 'b' && "babelrc"@[3] == 'e' && "babelrc"@[4] == 'l' && "babelrc"@[5] == 'r' && "babelrc"@[6] == 'c');
    assert("nvmrc"@.len() == 5 && "nvmrc"@[0] == 'n' && "nvmrc"@[1] == 'v' && "nvmrc"@[2] == 'm' && "nvmrc"@[3] == 'r' && "nvmrc"@[4] == 'c');
    assert("dockerignore"@.len() == 12 && "dockerignore"@[0] == 'd' && "dockerignore"@[1] == 'o' && "dockerignore"@[2] == 'c' && "dockerignore"@[3] == 'k' && "dockerignore"@[4] == 'e' && "dockerignore"@[5] == 'r' && "dockerignore"@[6] == 'i' && "dockerignore"@[7] == 'g' && "dockerignore"@[8] == 'n' && "dockerignore"@[9] == 'o' && "dockerignore"@[10] == 'r' && "dockerignore"@[11] == 'e');
    assert("gitattributes"@.len() == 13 && "gitattributes"@[0] == 'g' && "gitattributes"@[1] == 'i' && "gitattributes"@[2] == 't' && "gitattributes"@[3] == 'a' && "gitattributes"@[4] == 't' && "gitattributes"@[5] == 't' && "gitattributes"@[6] == 'r' && "gitattributes"@[7] == 'i' && "gitattributes"@[8] == 'b' && "gitattributes"@[9] == 'u' && "gitattributes"@[10] == 't' && "gitattributes"@[11] == 'e' && "gitattributes"@[12] == 's');
    assert("md"@.len() == 2 && "md"@[0] == 'm' && "md"@[1] == 'd');
    assert("markdown"@.len() == 8 && "markdown"@[0] == 'm' && "markdown"@[1] == 'a' && "markdown"@[2] == 'r' && "markdown"@[3] == 'k' && "markdown"@[4] == 'd' && "markdown"@[5] == 'o' && "markdown"@[6] == 'w' && "markdown"@[7] == 'n');
    assert("txt"@.len() == 3 && "txt"@[0] == 't' && "txt"@[1] == 'x' && "txt"@[2] == 't');
    assert("rst"@.len() == 3 && "rst"@[0] == 'r' && "rst"@[1] == 's' && "rst"@[2] == 't');
    assert("adoc"@.len() == 4 && "adoc"@[0] == 'a' && "adoc"@[1] == 'd' && "adoc"@[2] == 'o' && "adoc"@[3] == 'c');
    assert("org"@.len() == 3 && "org"@[0] == 'o' && "org"@[1] == 'r' && "org"@[2] == 'g');
    assert("tex"@.len() == 3 && "tex"@[0] == 't' && "tex"@[1] == 'e' && "tex"@[2] == 'x');
    assert("latex"@.len() == 5 && "latex"@[0] == 'l' && "latex"@[1] == 'a' && "latex"@[2] == 't' && "latex"@[3] == 'e' && "latex"@[4] == 'x');
    assert("rdoc"@.len() == 4 && "rdoc"@[0] == 'r' && "rdoc"@[1] == 'd' && "rdoc"@[2] == 'o' && "rdoc"@[3] == 'c');
    assert("pod"@.len() == 3 && "pod"@[0] == 'p' && "pod"@[1] == 'o' && "pod"@[2] == 'd');
    assert("css"@.len() == 3 && "css"@[0] == 'c' && "css"@[1] == 's' && "css"@[2] == 's');
    assert("scss"@.len() == 4 && "scss"@[0] == 's' && "scss"@[1] == 'c' && "scss"@[2] == 's' && "scss"@[3] == 's');
    assert("sass"@.len() == 4 && "sass"@[0] == 's' && "sass"@[1] == 'a' && "sass"@[2] == 's' && "sass"@[3] == 's');
    assert("less"@.len() == 4 && "less"@[0] == 'l' && "less"@[1] == 'e' && "less"@[2] == 's' && "less"@[3] == 's');
    assert("styl"@.len() == 4 && "styl"@[0] == 's' && "styl"@[1] == 't' && "styl"@[2] == 'y' && "styl"@[3] == 'l');
    assert("stylus"@.len() == 6 && "stylus"@[0] == 's' && "stylus"@[1] == 't' && "stylus"@[2] == 'y' && "stylus"@[3] == 'l' && "stylus"@[4] == 'u' && "stylus"@[5] == 's');
    assert("pcss"@.len() == 4 && "pcss"@[0] == 'p' && "pcss"@[1] == 'c' && "pcss"@[2] == 's' && "pcss"@[3] == 's');
}

/// Law: markup and template extensions are markup.
pub proof fn lemma_markup_extensions()
    ensures
        categorize_spec("html"@) == ExtensionCategory::Markup,
        categorize_spec("htm"@) == ExtensionCategory::Markup,
        categorize_spec("vue"@) == ExtensionCategory::Markup,
        categorize_spec("svelte"@) == ExtensionCategory::Markup,
        categorize_spec("erb"@) == ExtensionCategory::Markup,
        categorize_spec("ejs"@) == ExtensionCategory::Markup,
        categorize_spec("hbs"@) == ExtensionCategory::Markup,
        categorize_spec("handlebars"@) == ExtensionCategory::Markup,
        categorize_spec("pug"@) == ExtensionCategory::Markup,
        categorize_spec("jade"@) == ExtensionCategory::Markup,
        categorize_spec("slim"@) == ExtensionCategory::Markup,
        categorize_spec("haml"@) == ExtensionCategory::Markup,
        categorize_spec("twig"@) == ExtensionCategory::Markup,
        categorize_spec("jinja"@) == ExtensionCategory::Markup,
        categorize_spec("jinja2"@) == ExtensionCategory::Markup,
        categorize_spec("mustache"@) == ExtensionCategory::Markup,
        categorize_spec("njk"@) == ExtensionCategory::Markup,
        categorize_spec("astro"@) == ExtensionCategory::Markup,
{
    reveal_strlit("rs");
    reveal_strlit("py");
    reveal_strlit("js");
    reveal_strlit("jsx");
    reveal_strlit("ts");
    reveal_strlit("tsx");
    reveal_strlit("c");
    reveal_strlit("h");
    reveal_strlit("cpp");
    reveal_strlit("cc");
    reveal_strlit("cxx");
    reveal_strlit("hpp");
    reveal_strlit("hxx");
    reveal_strlit("hh");
    reveal_strlit("cs");
    reveal_strlit("java");
    reveal_strlit("kt");
    reveal_strlit("kts");
    reveal_strlit("go");
    reveal_strlit("rb");
    reveal_strlit("php");
    reveal_strlit("swift");
    reveal_strlit("m");
    reveal_strlit("mm");
    reveal_strlit("r");
    reveal_strlit("R");
    reveal_strlit("scala");
    reveal_strlit("clj");
    reveal_strlit("cljs");
    reveal_strlit("erl");
    reveal_strlit("ex");
    reveal_strlit("exs");
    reveal_strlit("hs");
    reveal_strlit("lua");
    reveal_strlit("pl");
    reveal_strlit("pm");
    reveal_strlit("sh");
    reveal_strlit("bash");
    reveal_strlit("zsh");
    reveal_strlit("fish");
    reveal_strlit("ps1");
    reveal_strlit("bat");
    reveal_strlit("cmd");
    reveal_strlit("zig");
    reveal_strlit("nim");
    reveal_strlit("v");
    reveal_strlit("d");
    reveal_strlit("f90");
    reveal_strlit("f95");
    reveal_strlit("jl");
    reveal_strlit("ml");
    reveal_strlit("mli");
    reveal_strlit("fs");
    reveal_strlit("fsx");
    reveal_strlit("dart");
    reveal_strlit("groovy");
    reveal_strlit("vb");
    reveal_strlit("vbs");
    reveal_strlit("asm");
    reveal_strlit("s");
    reveal_strlit("S");
    reveal_strlit("toml");
    reveal_strlit("json");
    reveal_strlit("yaml");
    reveal_strlit("yml");
    reveal_strlit("xml");
    reveal_strlit("ini");
    reveal_strlit("cfg");
    reveal_strlit("conf");
    reveal_strlit("env");
    reveal_strlit("properties");
    reveal_strlit("plist");
    reveal_strlit("editorconfig");
    reveal_strlit("eslintrc");
    reveal_strlit("prettierrc");
    reveal_strlit("babelrc");
    reveal_strlit("nvmrc");
    reveal_strlit("dockerignore");
    reveal_strlit("gitattributes");
    reveal_strlit("md");
    reveal_strlit("markdown");
    reveal_strlit("txt");
    reveal_strlit("rst");
    reveal_strlit("adoc");
    reveal_strlit("org");
    reveal_strlit("tex");
    reveal_strlit("latex");
    reveal_strlit("rdoc");
    reveal_strlit("pod");
    reveal_strlit("css");
    reveal_strlit("scss");
    reveal_strlit("sass");
    reveal_strlit("less");
    reveal_strlit("styl");
    reveal_strlit("stylus");
    reveal_strlit("pcss");
    reveal_strlit("html");
    reveal_strlit("htm");
    reveal_strlit("vue");
    reveal_strlit("svelte");
    reveal_strlit("erb");
    reveal_strlit("ejs");
    reveal_strlit("hbs");
    reveal_strlit("handlebars");
    reveal_strlit("pug");
    reveal_strlit("jade");
    reveal_strlit("slim");
    reveal_strlit("haml");
    reveal_strlit("twig");
    reveal_strlit("jinja");
    reveal_strlit("jinja2");
    reveal_strlit("mustache");
    reveal_strlit("njk");
    reveal_strlit("astro");
    assert("rs"@.len() == 2 && "rs"@[0] == 'r' && "rs"@[1] == 's');
    assert("py"@.len() == 2 && "py"@[0] == 'p' && "py"@[1] == 'y');
    assert("js"@.len() == 2 && "js"@[0] == 'j' && "js"@[1] == 's');
    assert("jsx"@.len() == 3 && "jsx"@[0] == 'j' && "jsx"@[1] == 's' && "jsx"@[2] == 'x');
    assert("ts"@.len() == 2 && "ts"@[0] == 't' && "ts"@[1] == 's');
    assert("tsx"@.len() == 3 && "tsx"@[0] == 't' && "tsx"@[1] == 's' && "tsx"@[2] == 'x');
    assert("c"@.len() == 1 && "c"@[0] == 'c');
    assert("h"@.len() == 1 && "h"@[0] == 'h');
    assert("cpp"@.len() == 3 && "cpp"@[0] == 'c' && "cpp"@[1] == 'p' && "cpp"@[2] == 'p');
    assert("cc"@.len() == 2 && "cc"@[0] == 'c' && "cc"@[1] == 'c');
    assert("cxx"@.len() == 3 && "cxx"@[0] == 'c' && "cxx"@[1] == 'x' && "cxx"@[2] == 'x');
    assert("hpp"@.len() == 3 && "hpp"@[0] == 'h' && "hpp"@[1] == 'p' && "hpp"@[2] == 'p');
    assert("hxx"@.len() == 3 && "hxx"@[0] == 'h' && "hxx"@[1] == 'x' && "hxx"@[2] == 'x');
    assert("hh"@.len() == 2 && "hh"@[0] == 'h' && "hh"@[1] == 'h');
    assert("cs"@.len() == 2 && "cs"@[0] == 'c' && "cs"@[1] == 's');
    assert("java"@.len() == 4 && "java"@[0] == 'j' && "java"@[1] == 'a' && "java"@[2] == 'v' && "java"@[3] == 'a');
    assert("kt"@.len() == 2 && "kt"@[0] == 'k' && "kt"@[1] == 't');
    assert("kts"@.len() == 3 && "kts"@[0] == 'k' && "kts"@[1] == 't' && "kts"@[2] == 's');
    assert("go"@.len() == 2 && "go"@[0] == 'g' && "go"@[1] == 'o');
    assert("rb"@.len() == 2 && "rb"@[0] == 'r' && "rb"@[1] == 'b');
    assert("php"@.len() == 3 && "php"@[0] == 'p' && "php"@[1] == 'h' && "php"@[2] == 'p');
    assert("swift"@.len() == 5 && "swift"@[0] == 's' && "swift"@[1] == 'w' && "swift"@[2] == 'i' && "swift"@[3] == 'f' && "swift"@[4] == 't');
    assert("m"@.len() == 1 && "m"@[0] == 'm');
    assert("mm"@.len() == 2 && "mm"@[0] == 'm' && "mm"@[1] == 'm');
    assert("r"@.len() == 1 && "r"@[0] == 'r');
    assert("R"@.len() == 1 && "R"@[0] == 'R');
    assert("scala"@.len() == 5 && "scala"@[0] == 's' && "scala"@[1] == 'c' && "scala"@[2] == 'a' && "scala"@[3] == 'l' && "scala"@[4] == 'a');
    assert("clj"@.len() == 3 && "clj"@[0] == 'c' && "clj"@[1] == 'l' && "clj"@[2] == 'j');
    assert("cljs"@.len() == 4 && "cljs"@[0] == 'c' && "cljs"@[1] == 'l' && "cljs"@[2] == 'j' && "cljs"@[3] == 's');
    assert("erl"@.len() == 3 && "erl"@[0] == 'e' && "erl"@[1] == 'r' && "erl"@[2] == 'l');
    assert("ex"@.len() == 2 && "ex"@[0] == 'e' && "ex"@[1] == 'x');
    assert("exs"@.len() == 3 && "exs"@[0] == 'e' && "exs"@[1] == 'x' && "exs"@[2] == 's');
    assert("hs"@.len() == 2 && "hs"@[0] == 'h' && "hs"@[1] == 's');
    assert("lua"@.len() == 3 && "lua"@[0] == 'l' && "lua"@[1] == 'u' && "lua"@[2] == 'a');
    assert("pl"@.len() == 2 && "pl"@[0] == 'p' && "pl"@[1] == 'l');
    assert("pm"@.len() == 2 && "pm"@[0] == 'p' && "pm"@[1] == 'm');
    assert("sh"@.len() == 2 && "sh"@[0] == 's' && "sh"@[1] == 'h');
    assert("bash"@.len() == 4 && "bash"@[0] == 'b' && "bash"@[1] == 'a' && "bash"@[2] == 's' && "bash"@[3] == 'h');
    assert("zsh"@.len() == 3 && "zsh"@[0] == 'z' && "zsh"@[1] == 's' && "zsh"@[2] == 'h');
    assert("fish"@.len() == 4 && "fish"@[0] == 'f' && "fish"@[1] == 'i' && "fish"@[2] == 's' && "fish"@[3] == 'h');
    assert("ps1"@.len() == 3 && "ps1"@[0] == 'p' && "ps1"@[1] == 's' && "ps1"@[2] == '1');
    assert("bat"@.len() == 3 && "bat"@[0] == 'b' && "bat"@[1] == 'a' && "bat"@[2] == 't');
    assert("cmd"@.len() == 3 && "cmd"@[0] == 'c' && "cmd"@[1] == 'm' && "cmd"@[2] == 'd');
    assert("zig"@.len() == 3 && "zig"@[0] == 'z' && "zig"@[1] == 'i' && "zig"@[2] == 'g');
    assert("nim"@.len() == 3 && "nim"@[0] == 'n' && "nim"@[1] == 'i' && "nim"@[2] == 'm');
    assert("v"@.len() == 1 && "v"@[0] == 'v');
    assert("d"@.len() == 1 && "d"@[0] == 'd');
    assert("f90"@.len() == 3 && "f90"@[0] == 'f' && "f90"@[1] == '9' && "f90"@[2] == '0');
    assert("f95"@.len() == 3 && "f95"@[0] == 'f' && "f95"@[1] == '9' && "f95"@[2] == '5');
    assert("jl"@.len() == 2 && "jl"@[0] == 'j' && "jl"@[1] == 'l');
    assert("ml"@.len() == 2 && "ml"@[0] == 'm' && "ml"@[1] == 'l');
    assert("mli"@.len() == 3 && "mli"@[0] == 'm' && "mli"@[1] == 'l' && "mli"@[2] == 'i');
    assert("fs"@.len() == 2 && "fs"@[0] == 'f' && "fs"@[1] == 's');
    assert("fsx"@.len() == 3 && "fsx"@[0] == 'f' && "fsx"@[1] == 's' && "fsx"@[2] == 'x');
    assert("dart"@.len() == 4 && "dart"@[0] == 'd' && "dart"@[1] == 'a' && "dart"@[2] == 'r' && "dart"@[3] == 't');
    assert("groovy"@.len() == 6 && "groovy"@[0] == 'g' && "groovy"@[1] == 'r' && "groovy"@[2] == 'o' && "groovy"@[3] == 'o' && "groovy"@[4] == 'v' && "groovy"@[5] == 'y');
    assert("vb"@.len() == 2 && "vb"@[0] == 'v' && "vb"@[1] == 'b');
    assert("vbs"@.len() == 3 && "vbs"@[0] == 'v' && "vbs"@[1] == 'b' && "vbs"@[2] == 's');
    assert("asm"@.len() == 3 && "asm"@[0] == 'a' && "asm"@[1] == 's' && "asm"@[2] == 'm');
    assert("s"@.len() == 1 && "s"@[0] == 's');
    assert("S"@.len() == 1 && "S"@[0] == 'S');
    assert("toml"@.len() == 4 && "toml"@[0] == 't' && "toml"@[1] == 'o' && "toml"@[2] == 'm' && "toml"@[3] == 'l');
    assert("json"@.len() == 4 && "json"@[0] == 'j' && "json"@[1] == 's' && "json"@[2] == 'o' && "json"@[3] == 'n');
    assert("yaml"@.len() == 4 && "yaml"@[0] == 'y' && "yaml"@[1] == 'a' && "yaml"@[2] == 'm' && "yaml"@[3] == 'l');
    assert("yml"@.len() == 3 && "yml"@[0] == 'y' && "yml"@[1] == 'm' && "yml"@[2] == 'l');
    assert("xml"@.len() == 3 && "xml"@[0] == 'x' && "xml"@[1] == 'm' && "xml"@[2] == 'l');
    assert("ini"@.len() == 3 && "ini"@[0] == 'i' && "ini"@[1] == 'n' && "ini"@[2] == 'i');
    assert("cfg"@.len() == 3 && "cfg"@[0] == 'c' && "cfg"@[1] == 'f' && "cfg"@[2] == 'g');
    assert("conf"@.len() == 4 && "conf"@[0] == 'c' && "conf"@[1] == 'o' && "conf"@[2] == 'n' && "conf"@[3] == 'f');
    assert("env"@.len() == 3 && "env"@[0] == 'e' && "env"@[1] == 'n' && "env"@[2] == 'v');
    assert("properties"@.len() == 10 && "properties"@[0] == 'p' && "properties"@[1] == 'r' && "properties"@[2] == 'o' && "properties"@[3] == 'p' && "properties"@[4] == 'e' && "properties"@[5] == 'r' && "properties"@[6] == 't' && "properties"@[7] == 'i' && "properties"@[8] == 'e' && "properties"@[9] == 's');
    assert("plist"@.len() == 5 && "plist"@[0] == 'p' && "plist"@[1] == 'l' && "plist"@[2] == 'i' && "plist"@[3] == 's' && "plist"@[4] == 't');
    assert("editorconfig"@.len() == 12 && "editorconfig"@[0] == 'e' && "editorconfig"@[1] == 'd' && "editorconfig"@[2] == 'i' && "editorconfig"@[3] == 't' && "editorconfig"@[4] == 'o' && "editorconfig"@[5] == 'r' && "editorconfig"@[6] == 'c' && "editorconfig"@[7] == 'o' && "editorconfig"@[8] == 'n' && "editorconfig"@[9] == 'f' && "editorconfig"@[10] == 'i' && "editorconfig"@[11] == 'g');
    assert("eslintrc"@.len() == 8 && "eslintrc"@[0] == 'e' && "eslintrc"@[1] == 's' && "eslintrc"@[2] == 'l' && "eslintrc"@[3] == 'i' && "eslintrc"@[4] == 'n' && "eslintrc"@[5] == 't' && "eslintrc"@[6] == 'r' && "eslintrc"@[7] == 'c');
    assert("prettierrc"@.len() == 10 && "prettierrc"@[0] == 'p' && "prettierrc"@[1] == 'r' && "prettierrc"@[2] == 'e' && "prettierrc"@[3] == 't' && "prettierrc"@[4] == 't' && "prettierrc"@[5] == 'i' && "prettierrc"@[6] == 'e' && "prettierrc"@[7] == 'r' && "prettierrc"@[8] == 'r' && "prettierrc"@[9] == 'c');
    assert("babelrc"@.len() == 7 && "babelrc"@[0] == 'b' && "babelrc"@[1] == 'a' && "babelrc"@[2] == 'b' && "babelrc"@[3] == 'e' && "babelrc"@[4] == 'l' && "babelrc"@[5] == 'r' && "babelrc"@[6] == 'c');
    assert("nvmrc"@.len() == 5 && "nvmrc"@[0] == 'n' && "nvmrc"@[1] == 'v' && "nvmrc"@[2] == 'm' && "nvmrc"@[3] == 'r' && "nvmrc"@[4] == 'c');
    assert("dockerignore"@.len() == 12 && "dockerignore"@[0] == 'd' && "dockerignore"@[1] == 'o' && "dockerignore"@[2] == 'c' && "dockerignore"@[3] == 'k' && "dockerignore"@[4] == 'e' && "dockerignore"@[5] == 'r' && "dockerignore"@[6] == 'i' && "dockerignore"@[7] == 'g' && "dockerignore"@[8] == 'n' && "dockerignore"@[9] == 'o' && "dockerignore"@[10] == 'r' && "dockerignore"@[11] == 'e');
    assert("gitattributes"@.len() == 13 && "gitattributes"@[0] == 'g' && "gitattributes"@[1] == 'i' && "gitattributes"@[2] == 't' && "gitattributes"@[3] == 'a' && "gitattributes"@[4] == 't' && "gitattributes"@[5] == 't' && "gitattributes"@[6] == 'r' && "gitattributes"@[7] == 'i' && "gitattributes"@[8] == 'b' && "gitattributes"@[9] == 'u' && "gitattributes"@[10] == 't' && "gitattributes"@[11] == 'e' && "gitattributes"@[12] == 's');
    assert("md"@.len() == 2 && "md"@[0] == 'm' && "md"@[1] == 'd');
    assert("markdown"@.len() == 8 && "markdown"@[0] == 'm' && "markdown"@[1] == 'a' && "markdown"@[2] == 'r' && "markdown"@[3] == 'k' && "markdown"@[4] == 'd' && "markdown"@[5] == 'o' && "markdown"@[6] == 'w' && "markdown"@[7] == 'n');
    assert("txt"@.len() == 3 && "txt"@[0] == 't' && "txt"@[1] == 'x' && "txt"@[2] == 't');
    assert("rst"@.len() == 3 && "rst"@[0] == 'r' && "rst"@[1] == 's' && "rst"@[2] == 't');
    assert("adoc"@.len() == 4 && "adoc"@[0] == 'a' && "adoc"@[1] == 'd' && "adoc"@[2] == 'o' && "adoc"@[3] == 'c');
    assert("org"@.len() == 3 && "org"@[0] == 'o' && "org"@[1] == 'r' && "org"@[2] == 'g');
    assert("tex"@.len() == 3 && "tex"@[0] == 't' && "tex"@[1] == 'e' && "tex"@[2] == 'x');
    assert("latex"@.len() == 5 && "latex"@[0] == 'l' && "latex"@[1] == 'a' && "latex"@[2] == 't' && "latex"@[3] == 'e' && "latex"@[4] == 'x');
    assert("rdoc"@.len() == 4 && "rdoc"@[0] == 'r' && "rdoc"@[1] == 'd' && "rdoc"@[2] == 'o' && "rdoc"@[3] == 'c');
    assert("pod"@.len() == 3 && "pod"@[0] == 'p' && "pod"@[1] == 'o' && "pod"@[2] == 'd');
    assert("css"@.len() == 3 && "css"@[0] == 'c' && "css"@[1] == 's' && "css"@[2] == 's');
    assert("scss"@.len() == 4 && "scss"@[0] == 's' && "scss"@[1] == 'c' && "scss"@[2] == 's' && "scss"@[3] == 's');
    assert("sass"@.len() == 4 && "sass"@[0] == 's' && "sass"@[1] == 'a' && "sass"@[2] == 's' && "sass"@[3] == 's');
    assert("less"@.len() == 4 && "less"@[0] == 'l' && "less"@[1] == 'e' && "less"@[2] == 's' && "less"@[3] == 's');
    assert("styl"@.len() == 4 && "styl"@[0] == 's' && "styl"@[1] == 't' && "styl"@[2] == 'y' && "styl"@[3] == 'l');
    assert("stylus"@.len() == 6 && "stylus"@[0] == 's' && "stylus"@[1] == 't' && "stylus"@[2] == 'y' && "stylus"@[3] == 'l' && "stylus"@[4] == 'u' && "stylus"@[5] == 's');
    assert("pcss"@.len() == 4 && "pcss"@[0] == 'p' && "pcss"@[1] == 'c' && "pcss"@[2] == 's' && "pcss"@[3] == 's');
    assert("html"@.len() == 4 && "html"@[0] == 'h' && "html"@[1] == 't' && "html"@[2] == 'm' && "html"@[3] == 'l');
    assert("htm"@.len() == 3 && "htm"@[0] == 'h' && "htm"@[1] == 't' && "htm"@[2] == 'm');
    assert("vue"@.len() == 3 && "vue"@[0] == 'v' && "vue"@[1] == 'u' && "vue"@[2] == 'e');
    assert("svelte"@.len() == 6 && "svelte"@[0] == 's' && "svelte"@[1] == 'v' && "svelte"@[2] == 'e' && "svelte"@[3] == 'l' && "svelte"@[4] == 't' && "svelte"@[5] == 'e');
    assert("erb"@.len() == 3 && "erb"@[0] == 'e' && "erb"@[1] == 'r' && "erb"@[2] == 'b');
    assert("ejs"@.len() == 3 && "ejs"@[0] == 'e' && "ejs"@[1] == 'j' && "ejs"@[2] == 's');
    assert("hbs"@.len() == 3 && "hbs"@[0] == 'h' && "hbs"@[1] == 'b' && "hbs"@[2] == 's');
    assert("handlebars"@.len() == 10 && "handlebars"@[0] == 'h' && "handlebars"@[1] == 'a' && "handlebars"@[2] == 'n' && "handlebars"@[3] == 'd' && "handlebars"@[4] == 'l' && "handlebars"@[5] == 'e' && "handlebars"@[6] == 'b' && "handlebars"@[7] == 'a' && "handlebars"@[8] == 'r' && "handlebars"@[9] == 's');
    assert("pug"@.len() == 3 && "pug"@[0] == 'p' && "pug"@[1] == 'u' && "pug"@[2] == 'g');
    assert("jade"@.len() == 4 && "jade"@[0] == 'j' && "jade"@[1] == 'a' && "jade"@[2] == 'd' && "jade"@[3] == 'e');
    assert("slim"@.len() == 4 && "slim"@[0] == 's' && "slim"@[1] == 'l' && "slim"@[2] == 'i' && "slim"@[3] == 'm');
    assert("haml"@.len() == 4 && "haml"@[0] == 'h' && "haml"@[1] == 'a' && "haml"@[2] == 'm' && "haml"@[3] == 'l');
    assert("twig"@.len() == 4 && "twig"@[0] == 't' && "twig"@[1] == 'w' && "twig"@[2] == 'i' && "twig"@[3] == 'g');
    assert("jinja"@.len() == 5 && "jinja"@[0] == 'j' && "jinja"@[1] == 'i' && "jinja"@[2] == 'n' && "jinja"@[3] == 'j' && "jinja"@[4] == 'a');
    assert("jinja2"@.len() == 6 && "jinja2"@[0] == 'j' && "jinja2"@[1] == 'i' && "jinja2"@[2] == 'n' && "jinja2"@[3] == 'j' && "jinja2"@[4] == 'a' && "jinja2"@[5] == '2');
    assert("mustache"@.len() == 8 && "mustache"@[0] == 'm' && "mustache"@[1] == 'u' && "mustache"@[2] == 's' && "mustache"@[3] == 't' && "mustache"@[4] == 'a' && "mustache"@[5] == 'c' && "mustache"@[6] == 'h' && "mustache"@[7] == 'e');
    assert("njk"@.len() == 3 && "njk"@[0] == 'n' && "njk"@[1] == 'j' && "njk"@[2] == 'k');
    assert("astro"@.len() == 5 && "astro"@[0] == 'a' && "astro"@[1] == 's' && "astro"@[2] == 't' && "astro"@[3] == 'r' && "astro"@[4] == 'o');
}

/// Law: compiled objects, libraries and databases are binaries.
pub proof fn lemma_binary_extensions()
    ensures
        categorize_spec("exe"@) == ExtensionCategory::Binary,
        categorize_spec("dll"@) == ExtensionCategory::Binary,
        categorize_spec("obj"@) == ExtensionCategory::Binary,
        categorize_spec("o"@) == ExtensionCategory::Binary,
        categorize_spec("so"@) == ExtensionCategory::Binary,
        categorize_spec("dylib"@) == ExtensionCategory::Binary,
        categorize_spec("a"@) == ExtensionCategory::Binary,
        categorize_spec("lib"@) == ExtensionCategory::Binary,
        categorize_spec("pdb"@) == ExtensionCategory::Binary,
        categorize_spec("class"@) == ExtensionCategory::Binary,
        categorize_spec("pyc"@) == ExtensionCategory::Binary,
        categorize_spec("pyo"@) == ExtensionCategory::Binary,
        categorize_spec("wasm"@) == ExtensionCategory::Binary,
        categorize_spec("bin"@) == ExtensionCategory::Binary,
        categorize_spec("dat"@) == ExtensionCategory::Binary,
        categorize_spec("db"@) == ExtensionCategory::Binary,
        categorize_spec("sqlite"@) == ExtensionCategory::Binary,
        categorize_spec("mdb"@) == ExtensionCategory::Binary,
{
    reveal_strlit("rs");
    reveal_strlit("py");
    reveal_strlit("js");
    reveal_strlit("jsx");
    reveal_strlit("ts");
    reveal_strlit("tsx");
    reveal_strlit("c");
    reveal_strlit("h");
    reveal_strlit("cpp");
    reveal_strlit("cc");
    reveal_strlit("cxx");
    reveal_strlit("hpp");
    reveal_strlit("hxx");
    reveal_strlit("hh");
    reveal_strlit("cs");
    reveal_strlit("java");
    reveal_strlit("kt");
    reveal_strlit("kts");
    reveal_strlit("go");
    reveal_strlit("rb");
    reveal_strlit("php");
    reveal_strlit("swift");
    reveal_strlit("m");
    reveal_strlit("mm");
    reveal_strlit("r");
    reveal_strlit("R");
    reveal_strlit("scala");
    reveal_strlit("clj");
    reveal_strlit("cljs");
    reveal_strlit("erl");
    reveal_strlit("ex");
    reveal_strlit("exs");
    reveal_strlit("hs");
    reveal_strlit("lua");
    reveal_strlit("pl");
    reveal_strlit("pm");
    reveal_strlit("sh");
    reveal_strlit("bash");
    reveal_strlit("zsh");
    reveal_strlit("fish");
    reveal_strlit("ps1");
    reveal_strlit("bat");
    reveal_strlit("cmd");
    reveal_strlit("zig");
    reveal_strlit("nim");
    reveal_strlit("v");
    reveal_strlit("d");
    reveal_strlit("f90");
    reveal_strlit("f95");
    reveal_strlit("jl");
    reveal_strlit("ml");
    reveal_strlit("mli");
    reveal_strlit("fs");
    reveal_strlit("fsx");
    reveal_strlit("dart");
    reveal_strlit("groovy");
    reveal_strlit("vb");
    reveal_strlit("vbs");
    reveal_strlit("asm");
    reveal_strlit("s");
    reveal_strlit("S");
    reveal_strlit("toml");
    reveal_strlit("json");
    reveal_strlit("yaml");
    reveal_strlit("yml");
    reveal_strlit("xml");
    reveal_strlit("ini");
    reveal_strlit("cfg");
    reveal_strlit("conf");
    reveal_strlit("env");
    reveal_strlit("properties");
    reveal_strlit("plist");
    reveal_strlit("editorconfig");
    reveal_strlit("eslintrc");
    reveal_strlit("prettierrc");
    reveal_strlit("babelrc");
    reveal_strlit("nvmrc");
    reveal_strlit("dockerignore");
    reveal_strlit("gitattributes");
    reveal_strlit("md");
    reveal_strlit("markdown");
    reveal_strlit("txt");
    reveal_strlit("rst");
    reveal_strlit("adoc");
    reveal_strlit("org");
    reveal_strlit("tex");
    reveal_strlit("latex");
    reveal_strlit("rdoc");
    reveal_strlit("pod");
    reveal_strlit("css");
    reveal_strlit("scss");
    reveal_strlit("sass");
    reveal_strlit("less");
    reveal_strlit("styl");
    reveal_strlit("stylus");
    reveal_strlit("pcss");
    reveal_strlit("html");
    reveal_strlit("htm");
    reveal_strlit("vue");
    reveal_strlit("svelte");
    reveal_strlit("erb");
    reveal_strlit("ejs");
    reveal_strlit("hbs");
    reveal_strlit("handlebars");
    reveal_strlit("pug");
    reveal_strlit("jade");
    reveal_strlit("slim");
    reveal_strlit("haml");
    reveal_strlit("twig");
    reveal_strlit("jinja");
    reveal_strlit("jinja2");
    reveal_strlit("mustache");
    reveal_strlit("njk");
    reveal_strlit("astro");
    reveal_strlit("exe");
    reveal_strlit("dll");
    reveal_strlit("obj");
    reveal_strlit("o");
    reveal_strlit("so");
    reveal_strlit("dylib");
    reveal_strlit("a");
    reveal_strlit("lib");
    reveal_strlit("pdb");
    reveal_strlit("class");
    reveal_strlit("pyc");
    reveal_strlit("pyo");
    reveal_strlit("wasm");
    reveal_strlit("bin");
    reveal_strlit("dat");
    reveal_strlit("db");
    reveal_strlit("sqlite");
    reveal_strlit("mdb");
    assert("rs"@.len() == 2 && "rs"@[0] == 'r' && "rs"@[1] == 's');
    assert("py"@.len() == 2 && "py"@[0] == 'p' && "py"@[1] == 'y');
    assert("js"@.len() == 2 && "js"@[0] == 'j' && "js"@[1] == 's');
    assert("jsx"@.len() == 3 && "jsx"@[0] == 'j' && "jsx"@[1] == 's' && "jsx"@[2] == 'x');
    assert("ts"@.len() == 2 && "ts"@[0] == 't' && "ts"@[1] == 's');
    assert("tsx"@.len() == 3 && "tsx"@[0] == 't' && "tsx"@[1] == 's' && "tsx"@[2] == 'x');
    assert("c"@.len() == 1 && "c"@[0] == 'c');
    assert("h"@.len() == 1 && "h"@[0] == 'h');
    assert("cpp"@.len() == 3 && "cpp"@[0] == 'c' && "cpp"@[1] == 'p' && "cpp"@[2] == 'p');
    assert("cc"@.len() == 2 && "cc"@[0] == 'c' && "cc"@[1] == 'c');
    assert("cxx"@.len() == 3 && "cxx"@[0] == 'c' && "cxx"@[1] == 'x' && "cxx"@[2] == 'x');
    assert("hpp"@.len() == 3 && "hpp"@[0] == 'h' && "hpp"@[1] == 'p' && "hpp"@[2] == 'p');
    assert("hxx"@.len() == 3 && "hxx"@[0] == 'h' && "hxx"@[1] == 'x' && "hxx"@[2] == 'x');
    assert("hh"@.len() == 2 && "hh"@[0] == 'h' && "hh"@[1] == 'h');
    assert("cs"@.len() == 2 && "cs"@[0] == 'c' && "cs"@[1] == 's');
    assert("java"@.len() == 4 && "java"@[0] == 'j' && "java"@[1] == 'a' && "java"@[2] == 'v' && "java"@[3] == 'a');
    assert("kt"@.len() == 2 && "kt"@[0] == 'k' && "kt"@[1] == 't');
    assert("kts"@.len() == 3 && "kts"@[0] == 'k' && "kts"@[1] == 't' && "kts"@[2] == 's');
    assert("go"@.len() == 2 && "go"@[0] == 'g' && "go"@[1] == 'o');
    assert("rb"@.len() == 2 && "rb"@[0] == 'r' && "rb"@[1] == 'b');
    assert("php"@.len() == 3 && "php"@[0] == 'p' && "php"@[1] == 'h' && "php"@[2] == 'p');
    assert("swift"@.len() == 5 && "swift"@[0] == 's' && "swift"@[1] == 'w' && "swift"@[2] == 'i' && "swift"@[3] == 'f' && "swift"@[4] == 't');
    assert("m"@.len() == 1 && "m"@[0] == 'm');
    assert("mm"@.len() == 2 && "mm"@[0] == 'm' && "mm"@[1] == 'm');
    assert("r"@.len() == 1 && "r"@[0] == 'r');
    assert("R"@.len() == 1 && "R"@[0] == 'R');
    assert("scala"@.len() == 5 && "scala"@[0] == 's' && "scala"@[1] == 'c' && "scala"@[2] == 'a' && "scala"@[3] == 'l' && "scala"@[4] == 'a');
    assert("clj"@.len() == 3 && "clj"@[0] == 'c' && "clj"@[1] == 'l' && "clj"@[2] == 'j');
    assert("cljs"@.len() == 4 && "cljs"@[0] == 'c' && "cljs"@[1] == 'l' && "cljs"@[2] == 'j' && "cljs"@[3] == 's');
    assert("erl"@.len() == 3 && "erl"@[0] == 'e' && "erl"@[1] == 'r' && "erl"@[2] == 'l');
    assert("ex"@.len() == 2 && "ex"@[0] == 'e' && "ex"@[1] == 'x');
    assert("exs"@.len() == 3 && "exs"@[0] == 'e' && "exs"@[1] == 'x' && "exs"@[2] == 's');
    assert("hs"@.len() == 2 && "hs"@[0] == 'h' && "hs"@[1] == 's');
    assert("lua"@.len() == 3 && "lua"@[0] == 'l' && "lua"@[1] == 'u' && "lua"@[2] == 'a');
    assert("pl"@.len() == 2 && "pl"@[0] == 'p' && "pl"@[1] == 'l');
    assert("pm"@.len() == 2 && "pm"@[0] == 'p' && "pm"@[1] == 'm');
    assert("sh"@.len() == 2 && "sh"@[0] == 's' && "sh"@[1] == 'h');
    assert("bash"@.len() == 4 && "bash"@[0] == 'b' && "bash"@[1] == 'a' && "bash"@[2] == 's' && "bash"@[3] == 'h');
    assert("zsh"@.len() == 3 && "zsh"@[0] == 'z' && "zsh"@[1] == 's' && "zsh"@[2] == 'h');
    assert("fish"@.len() == 4 && "fish"@[0] == 'f' && "fish"@[1] == 'i' && "fish"@[2] == 's' && "fish"@[3] == 'h');
    assert("ps1"@.len() == 3 && "ps1"@[0] == 'p' && "ps1"@[1] == 's' && "ps1"@[2] == '1');
    assert("bat"@.len() == 3 && "bat"@[0] == 'b' && "bat"@[1] == 'a' && "bat"@[2] == 't');
    assert("cmd"@.len() == 3 && "cmd"@[0] == 'c' && "cmd"@[1] == 'm' && "cmd"@[2] == 'd');
    assert("zig"@.len() == 3 && "zig"@[0] == 'z' && "zig"@[1] == 'i' && "zig"@[2] == 'g');
    assert("nim"@.len() == 3 && "nim"@[0] == 'n' && "nim"@[1] == 'i' && "nim"@[2] == 'm');
    assert("v"@.len() == 1 && "v"@[0] == 'v');
    assert("d"@.len() == 1 && "d"@[0] == 'd');
    assert("f90"@.len() == 3 && "f90"@[0] == 'f' && "f90"@[1] == '9' && "f90"@[2] == '0');
    assert("f95"@.len() == 3 && "f95"@[0] == 'f' && "f95"@[1] == '9' && "f95"@[2] == '5');
    assert("jl"@.len() == 2 && "jl"@[0] == 'j' && "jl"@[1] == 'l');
    assert("ml"@.len() == 2 && "ml"@[0] == 'm' && "ml"@[1] == 'l');
    assert("mli"@.len() == 3 && "mli"@[0] == 'm' && "mli"@[1] == 'l' && "mli"@[2] == 'i');
    assert("fs"@.len() == 2 && "fs"@[0] == 'f' && "fs"@[1] == 's');
    assert("fsx"@.len() == 3 && "fsx"@[0] == 'f' && "fsx"@[1] == 's' && "fsx"@[2] == 'x');
    assert("dart"@.len() == 4 && "dart"@[0] == 'd' && "dart"@[1] == 'a' && "dart"@[2] == 'r' && "dart"@[3] == 't');
    assert("groovy"@.len() == 6 && "groovy"@[0] == 'g' && "groovy"@[1] == 'r' && "groovy"@[2] == 'o' && "groovy"@[3] == 'o' && "groovy"@[4] == 'v' && "groovy"@[5] == 'y');
    assert("vb"@.len() == 2 && "vb"@[0] == 'v' && "vb"@[1] == 'b');
    assert("vbs"@.len() == 3 && "vbs"@[0] == 'v' && "vbs"@[1] == 'b' && "vbs"@[2] == 's');
    assert("asm"@.len() == 3 && "asm"@[0] == 'a' && "asm"@[1] == 's' && "asm"@[2] == 'm');
    assert("s"@.len() == 1 && "s"@[0] == 's');
    assert("S"@.len() == 1 && "S"@[0] == 'S');
    assert("toml"@.len() == 4 && "toml"@[0] == 't' && "toml"@[1] == 'o' && "toml"@[2] == 'm' && "toml"@[3] == 'l');
    assert("json"@.len() == 4 && "json"@[0] == 'j' && "json"@[1] == 's' && "json"@[2] == 'o' && "json"@[3] == 'n');
    assert("yaml"@.len() == 4 && "yaml"@[0] == 'y' && "yaml"@[1] == 'a' && "yaml"@[2] == 'm' && "yaml"@[3] == 'l');
    assert("yml"@.len() == 3 && "yml"@[0] == 'y' && "yml"@[1] == 'm' && "yml"@[2] == 'l');
    assert("xml"@.len() == 3 && "xml"@[0] == 'x' && "xml"@[1] == 'm' && "xml"@[2] == 'l');
    assert("ini"@.len() == 3 && "ini"@[0] == 'i' && "ini"@[1] == 'n' && "ini"@[2] == 'i');
    assert("cfg"@.len() == 3 && "cfg"@[0] == 'c' && "cfg"@[1] == 'f' && "cfg"@[2] == 'g');
    assert("conf"@.len() == 4 && "conf"@[0] == 'c' && "conf"@[1] == 'o' && "conf"@[2] == 'n' && "conf"@[3] == 'f');
    assert("env"@.len() == 3 && "env"@[0] == 'e' && "env"@[1] == 'n' && "env"@[2] == 'v');
    assert("properties"@.len() == 10 && "properties"@[0] == 'p' && "properties"@[1] == 'r' && "properties"@[2] == 'o' && "properties"@[3] == 'p' && "properties"@[4] == 'e' && "properties"@[5] == 'r' && "properties"@[6] == 't' && "properties"@[7] == 'i' && "properties"@[8] == 'e' && "properties"@[9] == 's');
    assert("plist"@.len() == 5 && "plist"@[0] == 'p' && "plist"@[1] == 'l' && "plist"@[2] == 'i' && "plist"@[3] == 's' && "plist"@[4] == 't');
    assert("editorconfig"@.len() == 12 && "editorconfig"@[0] == 'e' && "editorconfig"@[1] == 'd' && "editorconfig"@[2] == 'i' && "editorconfig"@[3] == 't' && "editorconfig"@[4] == 'o' && "editorconfig"@[5] == 'r' && "editorconfig"@[6] == 'c' && "editorconfig"@[7] == 'o' && "editorconfig"@[8] == 'n' && "editorconfig"@[9] == 'f' && "editorconfig"@[10] == 'i' && "editorconfig"@[11] == 'g');
    assert("eslintrc"@.len() == 8 && "eslintrc"@[0] == 'e' && "eslintrc"@[1] == 's' && "eslintrc"@[2] == 'l' && "eslintrc"@[3] == 'i' && "eslintrc"@[4] == 'n' && "eslintrc"@[5] == 't' && "eslintrc"@[6] == 'r' && "eslintrc"@[7] == 'c');
    assert("prettierrc"@.len() == 10 && "prettierrc"@[0] == 'p' && "prettierrc"@[1] == 'r' && "prettierrc"@[2] == 'e' && "prettierrc"@[3] == 't' && "prettierrc"@[4] == 't' && "prettierrc"@[5] == 'i' && "prettierrc"@[6] == 'e' && "prettierrc"@[7] == 'r' && "prettierrc"@[8] == 'r' && "prettierrc"@[9] == 'c');
    assert("babelrc"@.len() == 7 && "babelrc"@[0] == 'b' && "babelrc"@[1] == 'a' && "babelrc"@[2] == 'b' && "babelrc"@[3] == 'e' && "babelrc"@[4] == 'l' && "babelrc"@[5] == 'r' && "babelrc"@[6] == 'c');
    assert("nvmrc"@.len() == 5 && "nvmrc"@[0] == 'n' && "nvmrc"@[1] == 'v' && "nvmrc"@[2] == 'm' && "nvmrc"@[3] == 'r' && "nvmrc"@[4] == 'c');
    assert("dockerignore"@.len() == 12 && "dockerignore"@[0] == 'd' && "dockerignore"@[1] == 'o' && "dockerignore"@[2] == 'c' && "dockerignore"@[3] == 'k' && "dockerignore"@[4] == 'e' && "dockerignore"@[5] == 'r' && "dockerignore"@[6] == 'i' && "dockerignore"@[7] == 'g' && "dockerignore"@[8] == 'n' && "dockerignore"@[9] == 'o' && "dockerignore"@[10] == 'r' && "dockerignore"@[11] == 'e');
    assert("gitattributes"@.len() == 13 && "gitattributes"@[0] == 'g' && "gitattributes"@[1] == 'i' && "gitattributes"@[2] == 't' && "gitattributes"@[3] == 'a' && "gitattributes"@[4] == 't' && "gitattributes"@[5] == 't' && "gitattributes"@[6] == 'r' && "gitattributes"@[7] == 'i' && "gitattributes"@[8] == 'b' && "gitattributes"@[9] == 'u' && "gitattributes"@[10] == 't' && "gitattributes"@[11] == 'e' && "gitattributes"@[12] == 's');
    assert("md"@.len() == 2 && "md"@[0] == 'm' && "md"@[1] == 'd');
    assert("markdown"@.len() == 8 && "markdown"@[0] == 'm' && "markdown"@[1] == 'a' && "markdown"@[2] == 'r' && "markdown"@[3] == 'k' && "markdown"@[4] == 'd' && "markdown"@[5] == 'o' && "markdown"@[6] == 'w' && "markdown"@[7] == 'n');
    assert("txt"@.len() == 3 && "txt"@[0] == 't' && "txt"@[1] == 'x' && "txt"@[2] == 't');
    assert("rst"@.len() == 3 && "rst"@[0] == 'r' && "rst"@[1] == 's' && "rst"@[2] == 't');
    assert("adoc"@.len() == 4 && "adoc"@[0] == 'a' && "adoc"@[1] == 'd' && "adoc"@[2] == 'o' && "adoc"@[3] == 'c');
    assert("org"@.len() == 3 && "org"@[0] == 'o' && "org"@[1] == 'r' && "org"@[2] == 'g');
    assert("tex"@.len() == 3 && "tex"@[0] == 't' && "tex"@[1] == 'e' && "tex"@[2] == 'x');
    assert("latex"@.len() == 5 && "latex"@[0] == 'l' && "latex"@[1] == 'a' && "latex"@[2] == 't' && "latex"@[3] == 'e' && "latex"@[4] == 'x');
    assert("rdoc"@.len() == 4 && "rdoc"@[0] == 'r' && "rdoc"@[1] == 'd' && "rdoc"@[2] == 'o' && "rdoc"@[3] == 'c');
    assert("pod"@.len() == 3 && "pod"@[0] == 'p' && "pod"@[1] == 'o' && "pod"@[2] == 'd');
    assert("css"@.len() == 3 && "css"@[0] == 'c' && "css"@[1] == 's' && "css"@[2] == 's');
    assert("scss"@.len() == 4 && "scss"@[0] == 's' && "scss"@[1] == 'c' && "scss"@[2] == 's' && "scss"@[3] == 's');
    assert("sass"@.len() == 4 && "sass"@[0] == 's' && "sass"@[1] == 'a' && "sass"@[2] == 's' && "sass"@[3] == 's');
    assert("less"@.len() == 4 && "less"@[0] == 'l' && "less"@[1] == 'e' && "less"@[2] == 's' && "less"@[3] == 's');
    assert("styl"@.len() == 4 && "styl"@[0] == 's' && "styl"@[1] == 't' && "styl"@[2] == 'y' && "styl"@[3] == 'l');
    assert("stylus"@.len() == 6 && "stylus"@[0] == 's' && "stylus"@[1] == 't' && "stylus"@[2] == 'y' && "stylus"@[3] == 'l' && "stylus"@[4] == 'u' && "stylus"@[5] == 's');
    assert("pcss"@.len() == 4 && "pcss"@[0] == 'p' && "pcss"@[1] == 'c' && "pcss"@[2] == 's' && "pcss"@[3] == 's');
    assert("html"@.len() == 4 && "html"@[0] == 'h' && "html"@[1] == 't' && "html"@[2] == 'm' && "html"@[3] == 'l');
    assert("htm"@.len() == 3 && "htm"@[0] == 'h' && "htm"@[1] == 't' && "htm"@[2] == 'm');
    assert("vue"@.len() == 3 && "vue"@[0] == 'v' && "vue"@[1] == 'u' && "vue"@[2] == 'e');
    assert("svelte"@.len() == 6 && "svelte"@[0] == 's' && "svelte"@[1] == 'v' && "svelte"@[2] == 'e' && "svelte"@[3] == 'l' && "svelte"@[4] == 't' && "svelte"@[5] == 'e');
    assert("erb"@.len() == 3 && "erb"@[0] == 'e' && "erb"@[1] == 'r' && "erb"@[2] == 'b');
    assert("ejs"@.len() == 3 && "ejs"@[0] == 'e' && "ejs"@[1] == 'j' && "ejs"@[2] == 's');
    assert("hbs"@.len() == 3 && "hbs"@[0] == 'h' && "hbs"@[1] == 'b' && "hbs"@[2] == 's');
    assert("handlebars"@.len() == 10 && "handlebars"@[0] == 'h' && "handlebars"@[1] == 'a' && "handlebars"@[2] == 'n' && "handlebars"@[3] == 'd' && "handlebars"@[4] == 'l' && "handlebars"@[5] == 'e' && "handlebars"@[6] == 'b' && "handlebars"@[7] == 'a' && "handlebars"@[8] == 'r' && "handlebars"@[9] == 's');
    assert("pug"@.len() == 3 && "pug"@[0] == 'p' && "pug"@[1] == 'u' && "pug"@[2] == 'g');
    assert("jade"@.len() == 4 && "jade"@[0] == 'j' && "jade"@[1] == 'a' && "jade"@[2] == 'd' && "jade"@[3] == 'e');
    assert("slim"@.len() == 4 && "slim"@[0] == 's' && "slim"@[1] == 'l' && "slim"@[2] == 'i' && "slim"@[3] == 'm');
    assert("haml"@.len() == 4 && "haml"@[0] == 'h' && "haml"@[1] == 'a' && "haml"@[2] == 'm' && "haml"@[3] == 'l');
    assert("twig"@.len() == 4 && "twig"@[0] == 't' && "twig"@[1] == 'w' && "twig"@[2] == 'i' && "twig"@[3] == 'g');
    assert("jinja"@.len() == 5 && "jinja"@[0] == 'j' && "jinja"@[1] == 'i' && "jinja"@[2] == 'n' && "jinja"@[3] == 'j' && "jinja"@[4] == 'a');
    assert("jinja2"@.len() == 6 && "jinja2"@[0] == 'j' && "jinja2"@[1] == 'i' && "jinja2"@[2] == 'n' && "jinja2"@[3] == 'j' && "jinja2"@[4] == 'a' && "jinja2"@[5] == '2');
    assert("mustache"@.len() == 8 && "mustache"@[0] == 'm' && "mustache"@[1] == 'u' && "mustache"@[2] == 's' && "mustache"@[3] == 't' && "mustache"@[4] == 'a' && "mustache"@[5] == 'c' && "mustache"@[6] == 'h' && "mustache"@[7] == 'e');
    assert("njk"@.len() == 3 && "njk"@[0] == 'n' && "njk"@[1] == 'j' && "njk"@[2] == 'k');
    assert("astro"@.len() == 5 && "astro"@[0] == 'a' && "astro"@[1] == 's' && "astro"@[2] == 't' && "astro"@[3] == 'r' && "astro"@[4] == 'o');
    assert("exe"@.len() == 3 && "exe"@[0] == 'e' && "exe"@[1] == 'x' && "exe"@[2] == 'e');
    assert("dll"@.len() == 3 && "dll"@[0] == 'd' && "dll"@[1] == 'l' && "dll"@[2] == 'l');
    assert("obj"@.len() == 3 && "obj"@[0] == 'o' && "obj"@[1] == 'b' && "obj"@[2] == 'j');
    assert("o"@.len() == 1 && "o"@[0] == 'o');
    assert("so"@.len() == 2 && "so"@[0] == 's' && "so"@[1] == 'o');
    assert("dylib"@.len() == 5 && "dylib"@[0] == 'd' && "dylib"@[1] == 'y' && "dylib"@[2] == 'l' && "dylib"@[3] == 'i' && "dylib"@[4] == 'b');
    assert("a"@.len() == 1 && "a"@[0] == 'a');
    assert("lib"@.len() == 3 && "lib"@[0] == 'l' && "lib"@[1] == 'i' && "lib"@[2] == 'b');
    assert("pdb"@.len() == 3 && "pdb"@[0] == 'p' && "pdb"@[1] == 'd' && "pdb"@[2] == 'b');
    assert("class"@.len() == 5 && "class"@[0] == 'c' && "class"@[1] == 'l' && "class"@[2] == 'a' && "class"@[3] == 's' && "class"@[4] == 's');
    assert("pyc"@.len() == 3 && "pyc"@[0] == 'p' && "pyc"@[1] == 'y' && "pyc"@[2] == 'c');
    assert("pyo"@.len() == 3 && "pyo"@[0] == 'p' && "pyo"@[1] == 'y' && "pyo"@[2] == 'o');
    assert("wasm"@.len() == 4 && "wasm"@[0] == 'w' && "wasm"@[1] == 'a' && "wasm"@[2] == 's' && "wasm"@[3] == 'm');
    assert("bin"@.len() == 3 && "bin"@[0] == 'b' && "bin"@[1] == 'i' && "bin"@[2] == 'n');
    assert("dat"@.len() == 3 && "dat"@[0] == 'd' && "dat"@[1] == 'a' && "dat"@[2] == 't');
    assert("db"@.len() == 2 && "db"@[0] == 'd' && "db"@[1] == 'b');
    assert("sqlite"@.len() == 6 && "sqlite"@[0] == 's' && "sqlite"@[1] == 'q' && "sqlite"@[2] == 'l' && "sqlite"@[3] == 'i' && "sqlite"@[4] == 't' && "sqlite"@[5] == 'e');
    assert("mdb"@.len() == 3 && "mdb"@[0] == 'm' && "mdb"@[1] == 'd' && "mdb"@[2] == 'b');
}

/// Law: image, audio and video extensions are media.
pub proof fn lemma_media_extensions()
    ensures
        categorize_spec("png"@) == ExtensionCategory::Media,
        categorize_spec("jpg"@) == ExtensionCategory::Media,
        categorize_spec("jpeg"@) == ExtensionCategory::Media,
        categorize_spec("gif"@) == ExtensionCategory::Media,
        categorize_spec("ico"@) == ExtensionCategory::Media,
        categorize_spec("bmp"@) == ExtensionCategory::Media,
        categorize_spec("tiff"@) == ExtensionCategory::Media,
        categorize_spec("tif"@) == ExtensionCategory::Media,
        categorize_spec("webp"@) == ExtensionCategory::Media,
        categorize_spec("avif"@) == ExtensionCategory::Media,
        categorize_spec("mp3"@) == ExtensionCategory::Media,
        categorize_spec("mp4"@) == ExtensionCategory::Media,
        categorize_spec("wav"@) == ExtensionCategory::Media,
        categorize_spec("flac"@) == ExtensionCategory::Media,
        categorize_spec("ogg"@) == ExtensionCategory::Media,
        categorize_spec("avi"@) == ExtensionCategory::Media,
        categorize_spec("mkv"@) == ExtensionCategory::Media,
        categorize_spec("mov"@) == ExtensionCategory::Media,
        categorize_spec("wmv"@) == ExtensionCategory::Media,
        categorize_spec("webm"@) == ExtensionCategory::Media,
        categorize_spec("aac"@) == ExtensionCategory::Media,
        categorize_spec("m4a"@) == ExtensionCategory::Media,
{
    reveal_strlit("rs");
    reveal_strlit("py");
    reveal_strlit("js");
    reveal_strlit("jsx");
    reveal_strlit("ts");
    reveal_strlit("tsx");
    reveal_strlit("c");
    reveal_strlit("h");
    reveal_strlit("cpp");
    reveal_strlit("cc");
    reveal_strlit("cxx");
    reveal_strlit("hpp");
    reveal_strlit("hxx");
    reveal_strlit("hh");
    reveal_strlit("cs");
    reveal_strlit("java");
    reveal_strlit("kt");
    reveal_strlit("kts");
    reveal_strlit("go");
    reveal_strlit("rb");
    reveal_strlit("php");
    reveal_strlit("swift");
    reveal_strlit("m");
    reveal_strlit("mm");
    reveal_strlit("r");
    reveal_strlit("R");
    reveal_strlit("scala");
    reveal_strlit("clj");
    reveal_strlit("cljs");
    reveal_strlit("erl");
    reveal_strlit("ex");
    reveal_strlit("exs");
    reveal_strlit("hs");
    reveal_strlit("lua");
    reveal_strlit("pl");
    reveal_strlit("pm");
    reveal_strlit("sh");
    reveal_strlit("bash");
    reveal_strlit("zsh");
    reveal_strlit("fish");
    reveal_strlit("ps1");
    reveal_strlit("bat");
    reveal_strlit("cmd");
    reveal_strlit("zig");
    reveal_strlit("nim");
    reveal_strlit("v");
    reveal_strlit("d");
    reveal_strlit("f90");
    reveal_strlit("f95");
    reveal_strlit("jl");
    reveal_strlit("ml");
    reveal_strlit("mli");
    reveal_strlit("fs");
    reveal_strlit("fsx");
    reveal_strlit("dart");
    reveal_strlit("groovy");
    reveal_strlit("vb");
    reveal_strlit("vbs");
    reveal_strlit("asm");
    reveal_strlit("s");
    reveal_strlit("S");
    reveal_strlit("toml");
    reveal_strlit("json");
    reveal_strlit("yaml");
    reveal_strlit("yml");
    reveal_strlit("xml");
    reveal_strlit("ini");
    reveal_strlit("cfg");
    reveal_strlit("conf");
    reveal_strlit("env");
    reveal_strlit("properties");
    reveal_strlit("plist");
    reveal_strlit("editorconfig");
    reveal_strlit("eslintrc");
    reveal_strlit("prettierrc");
    reveal_strlit("babelrc");
    reveal_strlit("nvmrc");
    reveal_strlit("dockerignore");
    reveal_strlit("gitattributes");
    reveal_strlit("md");
    reveal_strlit("markdown");
    reveal_strlit("txt");
    reveal_strlit("rst");
    reveal_strlit("adoc");
    reveal_strlit("org");
    reveal_strlit("tex");
    reveal_strlit("latex");
    reveal_strlit("rdoc");
    reveal_strlit("pod");
    reveal_strlit("css");
    reveal_strlit("scss");
    reveal_strlit("sass");
    reveal_strlit("less");
    reveal_strlit("styl");
    reveal_strlit("stylus");
    reveal_strlit("pcss");
    reveal_strlit("html");
    reveal_strlit("htm");
    reveal_strlit("vue");
    reveal_strlit("svelte");
    reveal_strlit("erb");
    reveal_strlit("ejs");
    reveal_strlit("hbs");
    reveal_strlit("handlebars");
    reveal_strlit("pug");
    reveal_strlit("jade");
    reveal_strlit("slim");
    reveal_strlit("haml");
    reveal_strlit("twig");
    reveal_strlit("jinja");
    reveal_strlit("jinja2");
    reveal_strlit("mustache");
    reveal_strlit("njk");
    reveal_strlit("astro");
    reveal_strlit("exe");
    reveal_strlit("dll");
    reveal_strlit("obj");
    reveal_strlit("o");
    reveal_strlit("so");
    reveal_strlit("dylib");
    reveal_strlit("a");
    reveal_strlit("lib");
    reveal_strlit("pdb");
    reveal_strlit("class");
    reveal_strlit("pyc");
    reveal_strlit("pyo");
    reveal_strlit("wasm");
    reveal_strlit("bin");
    reveal_strlit("dat");
    reveal_strlit("db");
    reveal_strlit("sqlite");
    reveal_strlit("mdb");
    reveal_strlit("png");
    reveal_strlit("jpg");
    reveal_strlit("jpeg");
    reveal_strlit("gif");
    reveal_strlit("ico");
    reveal_strlit("bmp");
    reveal_strlit("tiff");
    reveal_strlit("tif");
    reveal_strlit("webp");
    reveal_strlit("avif");
    reveal_strlit("mp3");
    reveal_strlit("mp4");
    reveal_strlit("wav");
    reveal_strlit("flac");
    reveal_strlit("ogg");
    reveal_strlit("avi");
    reveal_strlit("mkv");
    reveal_strlit("mov");
    reveal_strlit("wmv");
    reveal_strlit("webm");
    reveal_strlit("aac");
    reveal_strlit("m4a");
    assert("rs"@.len() == 2 && "rs"@[0] == 'r' && "rs"@[1] == 's');
    assert("py"@.len() == 2 && "py"@[0] == 'p' && "py"@[1] == 'y');
    assert("js"@.len() == 2 && "js"@[0] == 'j' && "js"@[1] == 's');
    assert("jsx"@.len() == 3 && "jsx"@[0] == 'j' && "jsx"@[1] == 's' && "jsx"@[2] == 'x');
    assert("ts"@.len() == 2 && "ts"@[0] == 't' && "ts"@[1] == 's');
    assert("tsx"@.len() == 3 && "tsx"@[0] == 't' && "tsx"@[1] == 's' && "tsx"@[2] == 'x');
    assert("c"@.len() == 1 && "c"@[0] == 'c');
    assert("h"@.len() == 1 && "h"@[0] == 'h');
    assert("cpp"@.len() == 3 && "cpp"@[0] == 'c' && "cpp"@[1] == 'p' && "cpp"@[2] == 'p');
    assert("cc"@.len() == 2 && "cc"@[0] == 'c' && "cc"@[1] == 'c');
    assert("cxx"@.len() == 3 && "cxx"@[0] == 'c' && "cxx"@[1] == 'x' && "cxx"@[2] == 'x');
    assert("hpp"@.len() == 3 && "hpp"@[0] == 'h' && "hpp"@[1] == 'p' && "hpp"@[2] == 'p');
    assert("hxx"@.len() == 3 && "hxx"@[0] == 'h' && "hxx"@[1] == 'x' && "hxx"@[2] == 'x');
    assert("hh"@.len() == 2 && "hh"@[0] == 'h' && "hh"@[1] == 'h');
    assert("cs"@.len() == 2 && "cs"@[0] == 'c' && "cs"@[1] == 's');
    assert("java"@.len() == 4 && "java"@[0] == 'j' && "java"@[1] == 'a' && "java"@[2] == 'v' && "java"@[3] == 'a');
    assert("kt"@.len() == 2 && "kt"@[0] == 'k' && "kt"@[1] == 't');
    assert("kts"@.len() == 3 && "kts"@[0] == 'k' && "kts"@[1] == 't' && "kts"@[2] == 's');
    assert("go"@.len() == 2 && "go"@[0] == 'g' && "go"@[1] == 'o');
    assert("rb"@.len() == 2 && "rb"@[0] == 'r' && "rb"@[1] == 'b');
    assert("php"@.len() == 3 && "php"@[0] == 'p' && "php"@[1] == 'h' && "php"@[2] == 'p');
    assert("swift"@.len() == 5 && "swift"@[0] == 's' && "swift"@[1] == 'w' && "swift"@[2] == 'i' && "swift"@[3] == 'f' && "swift"@[4] == 't');
    assert("m"@.len() == 1 && "m"@[0] == 'm');
    assert("mm"@.len() == 2 && "mm"@[0] == 'm' && "mm"@[1] == 'm');
    assert("r"@.len() == 1 && "r"@[0] == 'r');
    assert("R"@.len() == 1 && "R"@[0] == 'R');
    assert("scala"@.len() == 5 && "scala"@[0] == 's' && "scala"@[1] == 'c' && "scala"@[2] == 'a' && "scala"@[3] == 'l' && "scala"@[4] == 'a');
    assert("clj"@.len() == 3 && "clj"@[0] == 'c' && "clj"@[1] == 'l' && "clj"@[2] == 'j');
    assert("cljs"@.len() == 4 && "cljs"@[0] == 'c' && "cljs"@[1] == 'l' && "cljs"@[2] == 'j' && "cljs"@[3] == 's');
    assert("erl"@.len() == 3 && "erl"@[0] == 'e' && "erl"@[1] == 'r' && "erl"@[2] == 'l');
    assert("ex"@.len() == 2 && "ex"@[0] == 'e' && "ex"@[1] == 'x');
    assert("exs"@.len() == 3 && "exs"@[0] == 'e' && "exs"@[1] == 'x' && "exs"@[2] == 's');
    assert("hs"@.len() == 2 && "hs"@[0] == 'h' && "hs"@[1] == 's');
    assert("lua"@.len() == 3 && "lua"@[0] == 'l' && "lua"@[1] == 'u' && "lua"@[2] == 'a');
    assert("pl"@.len() == 2 && "pl"@[0] == 'p' && "pl"@[1] == 'l');
    assert("pm"@.len() == 2 && "pm"@[0] == 'p' && "pm"@[1] == 'm');
    assert("sh"@.len() == 2 && "sh"@[0] == 's' && "sh"@[1] == 'h');
    assert("bash"@.len() == 4 && "bash"@[0] == 'b' && "bash"@[1] == 'a' && "bash"@[2] == 's' && "bash"@[3] == 'h');
    assert("zsh"@.len() == 3 && "zsh"@[0] == 'z' && "zsh"@[1] == 's' && "zsh"@[2] == 'h');
    assert("fish"@.len() == 4 && "fish"@[0] == 'f' && "fish"@[1] == 'i' && "fish"@[2] == 's' && "fish"@[3] == 'h');
    assert("ps1"@.len() == 3 && "ps1"@[0] == 'p' && "ps1"@[1] == 's' && "ps1"@[2] == '1');
    assert("bat"@.len() == 3 && "bat"@[0] == 'b' && "bat"@[1] == 'a' && "bat"@[2] == 't');
    assert("cmd"@.len() == 3 && "cmd"@[0] == 'c' && "cmd"@[1] == 'm' && "cmd"@[2] == 'd');
    assert("zig"@.len() == 3 && "zig"@[0] == 'z' && "zig"@[1] == 'i' && "zig"@[2] == 'g');
    assert("nim"@.len() == 3 && "nim"@[0] == 'n' && "nim"@[1] == 'i' && "nim"@[2] == 'm');
    assert("v"@.len() == 1 && "v"@[0] == 'v');
    assert("d"@.len() == 1 && "d"@[0] == 'd');
    assert("f90"@.len() == 3 && "f90"@[0] == 'f' && "f90"@[1] == '9' && "f90"@[2] == '0');
    assert("f95"@.len() == 3 && "f95"@[0] == 'f' && "f95"@[1] == '9' && "f95"@[2] == '5');
    assert("jl"@.len() == 2 && "jl"@[0] == 'j' && "jl"@[1] == 'l');
    assert("ml"@.len() == 2 && "ml"@[0] == 'm' && "ml"@[1] == 'l');
    assert("mli"@.len() == 3 && "mli"@[0] == 'm' && "mli"@[1] == 'l' && "mli"@[2] == 'i');
    assert("fs"@.len() == 2 && "fs"@[0] == 'f' && "fs"@[1] == 's');
    assert("fsx"@.len() == 3 && "fsx"@[0] == 'f' && "fsx"@[1] == 's' && "fsx"@[2] == 'x');
    assert("dart"@.len() == 4 && "dart"@[0] == 'd' && "dart"@[1] == 'a' && "dart"@[2] == 'r' && "dart"@[3] == 't');
    assert("groovy"@.len() == 6 && "groovy"@[0] == 'g' && "groovy"@[1] == 'r' && "groovy"@[2] == 'o' && "groovy"@[3] == 'o' && "groovy"@[4] == 'v' && "groovy"@[5] == 'y');
    assert("vb"@.len() == 2 && "vb"@[0] == 'v' && "vb"@[1] == 'b');
    assert("vbs"@.len() == 3 && "vbs"@[0] == 'v' && "vbs"@[1] == 'b' && "vbs"@[2] == 's');
    assert("asm"@.len() == 3 && "asm"@[0] == 'a' && "asm"@[1] == 's' && "asm"@[2] == 'm');
    assert("s"@.len() == 1 && "s"@[0] == 's');
    assert("S"@.len() == 1 && "S"@[0] == 'S');
    assert("toml"@.len() == 4 && "toml"@[0] == 't' && "toml"@[1] == 'o' && "toml"@[2] == 'm' && "toml"@[3] == 'l');
    assert("json"@.len() == 4 && "json"@[0] == 'j' && "json"@[1] == 's' && "json"@[2] == 'o' && "json"@[3] == 'n');
    assert("yaml"@.len() == 4 && "yaml"@[0] == 'y' && "yaml"@[1] == 'a' && "yaml"@[2] == 'm' && "yaml"@[3] == 'l');
    assert("yml"@.len() == 3 && "yml"@[0] == 'y' && "yml"@[1] == 'm' && "yml"@[2] == 'l');
    assert("xml"@.len() == 3 && "xml"@[0] == 'x' && "xml"@[1] == 'm' && "xml"@[2] == 'l');
    assert("ini"@.len() == 3 && "ini"@[0] == 'i' && "ini"@[1] == 'n' && "ini"@[2] == 'i');
    assert("cfg"@.len() == 3 && "cfg"@[0] == 'c' && "cfg"@[1] == 'f' && "cfg"@[2] == 'g');
    assert("conf"@.len() == 4 && "conf"@[0] == 'c' && "conf"@[1] == 'o' && "conf"@[2] == 'n' && "conf"@[3] == 'f');
    assert("env"@.len() == 3 && "env"@[0] == 'e' && "env"@[1] == 'n' && "env"@[2] == 'v');
    assert("properties"@.len() == 10 && "properties"@[0] == 'p' && "properties"@[1] == 'r' && "properties"@[2] == 'o' && "properties"@[3] == 'p' && "properties"@[4] == 'e' && "properties"@[5] == 'r' && "properties"@[6] == 't' && "properties"@[7] == 'i' && "properties"@[8] == 'e' && "properties"@[9] == 's');
    assert("plist"@.len() == 5 && "plist"@[0] == 'p' && "plist"@[1] == 'l' && "plist"@[2] == 'i' && "plist"@[3] == 's' && "plist"@[4] == 't');
    assert("editorconfig"@.len() == 12 && "editorconfig"@[0] == 'e' && "editorconfig"@[1] == 'd' && "editorconfig"@[2] == 'i' && "editorconfig"@[3] == 't' && "editorconfig"@[4] == 'o' && "editorconfig"@[5] == 'r' && "editorconfig"@[6] == 'c' && "editorconfig"@[7] == 'o' && "editorconfig"@[8] == 'n' && "editorconfig"@[9] == 'f' && "editorconfig"@[10] == 'i' && "editorconfig"@[11] == 'g');
    assert("eslintrc"@.len() == 8 && "eslintrc"@[0] == 'e' && "eslintrc"@[1] == 's' && "eslintrc"@[2] == 'l' && "eslintrc"@[3] == 'i' && "eslintrc"@[4] == 'n' && "eslintrc"@[5] == 't' && "eslintrc"@[6] == 'r' && "eslintrc"@[7] == 'c');
    assert("prettierrc"@.len() == 10 && "prettierrc"@[0] == 'p' && "prettierrc"@[1] == 'r' && "prettierrc"@[2] == 'e' && "prettierrc"@[3] == 't' && "prettierrc"@[4] == 't' && "prettierrc"@[5] == 'i' && "prettierrc"@[6] == 'e' && "prettierrc"@[7] == 'r' && "prettierrc"@[8] == 'r' && "prettierrc"@[9] == 'c');
    assert("babelrc"@.len() == 7 && "babelrc"@[0] == 'b' && "babelrc"@[1] == 'a' && "babelrc"@[2] == 'b' && "babelrc"@[3] == 'e' && "babelrc"@[4] == 'l' && "babelrc"@[5] == 'r' && "babelrc"@[6] == 'c');
    assert("nvmrc"@.len() == 5 && "nvmrc"@[0] == 'n' && "nvmrc"@[1] == 'v' && "nvmrc"@[2] == 'm' && "nvmrc"@[3] == 'r' && "nvmrc"@[4] == 'c');
    assert("dockerignore"@.len() == 12 && "dockerignore"@[0] == 'd' && "dockerignore"@[1] == 'o' && "dockerignore"@[2] == 'c' && "dockerignore"@[3] == 'k' && "dockerignore"@[4] == 'e' && "dockerignore"@[5] == 'r' && "dockerignore"@[6] == 'i' && "dockerignore"@[7] == 'g' && "dockerignore"@[8] == 'n' && "dockerignore"@[9] == 'o' && "dockerignore"@[10] == 'r' && "dockerignore"@[11] == 'e');
    assert("gitattributes"@.len() == 13 && "gitattributes"@[0] == 'g' && "gitattributes"@[1] == 'i' && "gitattributes"@[2] == 't' && "gitattributes"@[3] == 'a' && "gitattributes"@[4] == 't' && "gitattributes"@[5] == 't' && "gitattributes"@[6] == 'r' && "gitattributes"@[7] == 'i' && "gitattributes"@[8] == 'b' && "gitattributes"@[9] == 'u' && "gitattributes"@[10] == 't' && "gitattributes"@[11] == 'e' && "gitattributes"@[12] == 's');
    assert("md"@.len() == 2 && "md"@[0] == 'm' && "md"@[1] == 'd');
    assert("markdown"@.len() == 8 && "markdown"@[0] == 'm' && "markdown"@[1] == 'a' && "markdown"@[2] == 'r' && "markdown"@[3] == 'k' && "markdown"@[4] == 'd' && "markdown"@[5] == 'o' && "markdown"@[6] == 'w' && "markdown"@[7] == 'n');
    assert("txt"@.len() == 3 && "txt"@[0] == 't' && "txt"@[1] == 'x' && "txt"@[2] == 't');
    assert("rst"@.len() == 3 && "rst"@[0] == 'r' && "rst"@[1] == 's' && "rst"@[2] == 't');
    assert("adoc"@.len() == 4 && "adoc"@[0] == 'a' && "adoc"@[1] == 'd' && "adoc"@[2] == 'o' && "adoc"@[3] == 'c');
    assert("org"@.len() == 3 && "org"@[0] == 'o' && "org"@[1] == 'r' && "org"@[2] == 'g');
    assert("tex"@.len() == 3 && "tex"@[0] == 't' && "tex"@[1] == 'e' && "tex"@[2] == 'x');
    assert("latex"@.len() == 5 && "latex"@[0] == 'l' && "latex"@[1] == 'a' && "latex"@[2] == 't' && "latex"@[3] == 'e' && "latex"@[4] == 'x');
    assert("rdoc"@.len() == 4 && "rdoc"@[0] == 'r' && "rdoc"@[1] == 'd' && "rdoc"@[2] == 'o' && "rdoc"@[3] == 'c');
    assert("pod"@.len() == 3 && "pod"@[0] == 'p' && "pod"@[1] == 'o' && "pod"@[2] == 'd');
    assert("css"@.len() == 3 && "css"@[0] == 'c' && "css"@[1] == 's' && "css"@[2] == 's');
    assert("scss"@.len() == 4 && "scss"@[0] == 's' && "scss"@[1] == 'c' && "scss"@[2] == 's' && "scss"@[3] == 's');
    assert("sass"@.len() == 4 && "sass"@[0] == 's' && "sass"@[1] == 'a' && "sass"@[2] == 's' && "sass"@[3] == 's');
    assert("less"@.len() == 4 && "less"@[0] == 'l' && "less"@[1] == 'e' && "less"@[2] == 's' && "less"@[3] == 's');
    assert("styl"@.len() == 4 && "styl"@[0] == 's' && "styl"@[1] == 't' && "styl"@[2] == 'y' && "styl"@[3] == 'l');
    assert("stylus"@.len() == 6 && "stylus"@[0] == 's' && "stylus"@[1] == 't' && "stylus"@[2] == 'y' && "stylus"@[3] == 'l' && "stylus"@[4] == 'u' && "stylus"@[5] == 's');
    assert("pcss"@.len() == 4 && "pcss"@[0] == 'p' && "pcss"@[1] == 'c' && "pcss"@[2] == 's' && "pcss"@[3] == 's');
    assert("html"@.len() == 4 && "html"@[0] == 'h' && "html"@[1] == 't' && "html"@[2] == 'm' && "html"@[3] == 'l');
    assert("htm"@.len() == 3 && "htm"@[0] == 'h' && "htm"@[1] == 't' && "htm"@[2] == 'm');
    assert("vue"@.len() == 3 && "vue"@[0] == 'v' && "vue"@[1] == 'u' && "vue"@[2] == 'e');
    assert("svelte"@.len() == 6 && "svelte"@[0] == 's' && "svelte"@[1] == 'v' && "svelte"@[2] == 'e' && "svelte"@[3] == 'l' && "svelte"@[4] == 't' && "svelte"@[5] == 'e');
    assert("erb"@.len() == 3 && "erb"@[0] == 'e' && "erb"@[1] == 'r' && "erb"@[2] == 'b');
    assert("ejs"@.len() == 3 && "ejs"@[0] == 'e' && "ejs"@[1] == 'j' && "ejs"@[2] == 's');
    assert("hbs"@.len() == 3 && "hbs"@[0] == 'h' && "hbs"@[1] == 'b' && "hbs"@[2] == 's');
    assert("handlebars"@.len() == 10 && "handlebars"@[0] == 'h' && "handlebars"@[1] == 'a' && "handlebars"@[2] == 'n' && "handlebars"@[3] == 'd' && "handlebars"@[4] == 'l' && "handlebars"@[5] == 'e' && "handlebars"@[6] == 'b' && "handlebars"@[7] == 'a' && "handlebars"@[8] == 'r' && "handlebars"@[9] == 's');
    assert("pug"@.len() == 3 && "pug"@[0] == 'p' && "pug"@[1] == 'u' && "pug"@[2] == 'g');
    assert("jade"@.len() == 4 && "jade"@[0] == 'j' && "jade"@[1] == 'a' && "jade"@[2] == 'd' && "jade"@[3] == 'e');
    assert("slim"@.len() == 4 && "slim"@[0] == 's' && "slim"@[1] == 'l' && "slim"@[2] == 'i' && "slim"@[3] == 'm');
    assert("haml"@.len() == 4 && "haml"@[0] == 'h' && "haml"@[1] == 'a' && "haml"@[2] == 'm' && "haml"@[3] == 'l');
    assert("twig"@.len() == 4 && "twig"@[0] == 't' && "twig"@[1] == 'w' && "twig"@[2] == 'i' && "twig"@[3] == 'g');
    assert("jinja"@.len() == 5 && "jinja"@[0] == 'j' && "jinja"@[1] == 'i' && "jinja"@[2] == 'n' && "jinja"@[3] == 'j' && "jinja"@[4] == 'a');
    assert("jinja2"@.len() == 6 && "jinja2"@[0] == 'j' && "jinja2"@[1] == 'i' && "jinja2"@[2] == 'n' && "jinja2"@[3] == 'j' && "jinja2"@[4] == 'a' && "jinja2"@[5] == '2');
    assert("mustache"@.len() == 8 && "mustache"@[0] == 'm' && "mustache"@[1] == 'u' && "mustache"@[2] == 's' && "mustache"@[3] == 't' && "mustache"@[4] == 'a' && "mustache"@[5] == 'c' && "mustache"@[6] == 'h' && "mustache"@[7] == 'e');
    assert("njk"@.len() == 3 && "njk"@[0] == 'n' && "njk"@[1] == 'j' && "njk"@[2] == 'k');
    assert("astro"@.len() == 5 && "astro"@[0] == 'a' && "astro"@[1] == 's' && "astro"@[2] == 't' && "astro"@[3] == 'r' && "astro"@[4] == 'o');
    assert("exe"@.len() == 3 && "exe"@[0] == 'e' && "exe"@[1] == 'x' && "exe"@[2] == 'e');
    assert("dll"@.len() == 3 && "dll"@[0] == 'd' && "dll"@[1] == 'l' && "dll"@[2] == 'l');
    assert("obj"@.len() == 3 && "obj"@[0] == 'o' && "obj"@[1] == 'b' && "obj"@[2] == 'j');
    assert("o"@.len() == 1 && "o"@[0] == 'o');
    assert("so"@.len() == 2 && "so"@[0] == 's' && "so"@[1] == 'o');
    assert("dylib"@.len() == 5 && "dylib"@[0] == 'd' && "dylib"@[1] == 'y' && "dylib"@[2] == 'l' && "dylib"@[3] == 'i' && "dylib"@[4] == 'b');
    assert("a"@.len() == 1 && "a"@[0] == 'a');
    assert("lib"@.len() == 3 && "lib"@[0] == 'l' && "lib"@[1] == 'i' && "lib"@[2] == 'b');
    assert("pdb"@.len() == 3 && "pdb"@[0] == 'p' && "pdb"@[1] == 'd' && "pdb"@[2] == 'b');
    assert("class"@.len() == 5 && "class"@[0] == 'c' && "class"@[1] == 'l' && "class"@[2] == 'a' && "class"@[3] == 's' && "class"@[4] == 's');
    assert("pyc"@.len() == 3 && "pyc"@[0] == 'p' && "pyc"@[1] == 'y' && "pyc"@[2] == 'c');
    assert("pyo"@.len() == 3 && "pyo"@[0] == 'p' && "pyo"@[1] == 'y' && "pyo"@[2] == 'o');
    assert("wasm"@.len() == 4 && "wasm"@[0] == 'w' && "wasm"@[1] == 'a' && "wasm"@[2] == 's' && "wasm"@[3] == 'm');
    assert("bin"@.len() == 3 && "bin"@[0] == 'b' && "bin"@[1] == 'i' && "bin"@[2] == 'n');
    assert("dat"@.len() == 3 && "dat"@[0] == 'd' && "dat"@[1] == 'a' && "dat"@[2] == 't');
    assert("db"@.len() == 2 && "db"@[0] == 'd' && "db"@[1] == 'b');
    assert("sqlite"@.len() == 6 && "sqlite"@[0] == 's' && "sqlite"@[1] == 'q' && "sqlite"@[2] == 'l' && "sqlite"@[3] == 'i' && "sqlite"@[4] == 't' && "sqlite"@[5] == 'e');
    assert("mdb"@.len() == 3 && "mdb"@[0] == 'm' && "mdb"@[1] == 'd' && "mdb"@[2] == 'b');
    assert("png"@.len() == 3 && "png"@[0] == 'p' && "png"@[1] == 'n' && "png"@[2] == 'g');
    assert("jpg"@.len() == 3 && "jpg"@[0] == 'j' && "jpg"@[1] == 'p' && "jpg"@[2] == 'g');
    assert("jpeg"@.len() == 4 && "jpeg"@[0] == 'j' && "jpeg"@[1] == 'p' && "jpeg"@[2] == 'e' && "jpeg"@[3] == 'g');
    assert("gif"@.len() == 3 && "gif"@[0] == 'g' && "gif"@[1] == 'i' && "gif"@[2] == 'f');
    assert("ico"@.len() == 3 && "ico"@[0] == 'i' && "ico"@[1] == 'c' && "ico"@[2] == 'o');
    assert("bmp"@.len() == 3 && "bmp"@[0] == 'b' && "bmp"@[1] == 'm' && "bmp"@[2] == 'p');
    assert("tiff"@.len() == 4 && "tiff"@[0] == 't' && "tiff"@[1] == 'i' && "tiff"@[2] == 'f' && "tiff"@[3] == 'f');
    assert("tif"@.len() == 3 && "tif"@[0] == 't' && "tif"@[1] == 'i' && "tif"@[2] == 'f');
    assert("webp"@.len() == 4 && "webp"@[0] == 'w' && "webp"@[1] == 'e' && "webp"@[2] == 'b' && "webp"@[3] == 'p');
    assert("avif"@.len() == 4 && "avif"@[0] == 'a' && "avif"@[1] == 'v' && "avif"@[2] == 'i' && "avif"@[3] == 'f');
    assert("mp3"@.len() == 3 && "mp3"@[0] == 'm' && "mp3"@[1] == 'p' && "mp3"@[2] == '3');
    assert("mp4"@.len() == 3 && "mp4"@[0] == 'm' && "mp4"@[1] == 'p' && "mp4"@[2] == '4');
    assert("wav"@.len() == 3 && "wav"@[0] == 'w' && "wav"@[1] == 'a' && "wav"@[2] == 'v');
    assert("flac"@.len() == 4 && "flac"@[0] == 'f' && "flac"@[1] == 'l' && "flac"@[2] == 'a' && "flac"@[3] == 'c');
    assert("ogg"@.len() == 3 && "ogg"@[0] == 'o' && "ogg"@[1] == 'g' && "ogg"@[2] == 'g');
    assert("avi"@.len() == 3 && "avi"@[0] == 'a' && "avi"@[1] == 'v' && "avi"@[2] == 'i');
    assert("mkv"@.len() == 3 && "mkv"@[0] == 'm' && "mkv"@[1] == 'k' && "mkv"@[2] == 'v');
    assert("mov"@.len() == 3 && "mov"@[0] == 'm' && "mov"@[1] == 'o' && "mov"@[2] == 'v');
    assert("wmv"@.len() == 3 && "wmv"@[0] == 'w' && "wmv"@[1] == 'm' && "wmv"@[2] == 'v');
    assert("webm"@.len() == 4 && "webm"@[0] == 'w' && "webm"@[1] == 'e' && "webm"@[2] == 'b' && "webm"@[3] == 'm');
    assert("aac"@.len() == 3 && "aac"@[0] == 'a' && "aac"@[1] == 'a' && "aac"@[2] == 'c');
    assert("m4a"@.len() == 3 && "m4a"@[0] == 'm' && "m4a"@[1] == '4' && "m4a"@[2] == 'a');
}

/// Law: archive and disk-image extensions are archives.
pub proof fn lemma_archive_extensions()
    ensures
        categorize_spec("zip"@) == ExtensionCategory::Archive,
        categorize_spec("tar"@) == ExtensionCategory::Archive,
        categorize_spec("gz"@) == ExtensionCategory::Archive,
        categorize_spec("bz2"@) == ExtensionCategory::Archive,
        categorize_spec("xz"@) == ExtensionCategory::Archive,
        categorize_spec("7z"@) == ExtensionCategory::Archive,
        categorize_spec("rar"@) == ExtensionCategory::Archive,
        categorize_spec("lz"@) == ExtensionCategory::Archive,
        categorize_spec("lzma"@) == ExtensionCategory::Archive,
        categorize_spec("zst"@) == ExtensionCategory::Archive,
        categorize_spec("cab"@) == ExtensionCategory::Archive,
        categorize_spec("dmg"@) == ExtensionCategory::Archive,
        categorize_spec("iso"@) == ExtensionCategory::Archive,
        categorize_spec("jar"@) == ExtensionCategory::Archive,
        categorize_spec("war"@) == ExtensionCategory::Archive,
        categorize_spec("ear"@) == ExtensionCategory::Archive,
{
    reveal_strlit("rs");
    reveal_strlit("py");
    reveal_strlit("js");
    reveal_strlit("jsx");
    reveal_strlit("ts");
    reveal_strlit("tsx");
    reveal_strlit("c");
    reveal_strlit("h");
    reveal_strlit("cpp");
    reveal_strlit("cc");
    reveal_strlit("cxx");
    reveal_strlit("hpp");
    reveal_strlit("hxx");
    reveal_strlit("hh");
    reveal_strlit("cs");
    reveal_strlit("java");
    reveal_strlit("kt");
    reveal_strlit("kts");
    reveal_strlit("go");
    reveal_strlit("rb");
    reveal_strlit("php");
    reveal_strlit("swift");
    reveal_strlit("m");
    reveal_strlit("mm");
    reveal_strlit("r");
    reveal_strlit("R");
    reveal_strlit("scala");
    reveal_strlit("clj");
    reveal_strlit("cljs");
    reveal_strlit("erl");
    reveal_strlit("ex");
    reveal_strlit("exs");
    reveal_strlit("hs");
    reveal_strlit("lua");
    reveal_strlit("pl");
    reveal_strlit("pm");
    reveal_strlit("sh");
    reveal_strlit("bash");
    reveal_strlit("zsh");
    reveal_strlit("fish");
    reveal_strlit("ps1");
    reveal_strlit("bat");
    reveal_strlit("cmd");
    reveal_strlit("zig");
    reveal_strlit("nim");
    reveal_strlit("v");
    reveal_strlit("d");
    reveal_strlit("f90");
    reveal_strlit("f95");
    reveal_strlit("jl");
    reveal_strlit("ml");
    reveal_strlit("mli");
    reveal_strlit("fs");
    reveal_strlit("fsx");
    reveal_strlit("dart");
    reveal_strlit("groovy");
    reveal_strlit("vb");
    reveal_strlit("vbs");
    reveal_strlit("asm");
    reveal_strlit("s");
    reveal_strlit("S");
    reveal_strlit("toml");
    reveal_strlit("json");
    reveal_strlit("yaml");
    reveal_strlit("yml");
    reveal_strlit("xml");
    reveal_strlit("ini");
    reveal_strlit("cfg");
    reveal_strlit("conf");
    reveal_strlit("env");
    reveal_strlit("properties");
    reveal_strlit("plist");
    reveal_strlit("editorconfig");
    reveal_strlit("eslintrc");
    reveal_strlit("prettierrc");
    reveal_strlit("babelrc");
    reveal_strlit("nvmrc");
    reveal_strlit("dockerignore");
    reveal_strlit("gitattributes");
    reveal_strlit("md");
    reveal_strlit("markdown");
    reveal_strlit("txt");
    reveal_strlit("rst");
    reveal_strlit("adoc");
    reveal_strlit("org");
    reveal_strlit("tex");
    reveal_strlit("latex");
    reveal_strlit("rdoc");
    reveal_strlit("pod");
    reveal_strlit("css");
    reveal_strlit("scss");
    reveal_strlit("sass");
    reveal_strlit("less");
    reveal_strlit("styl");
    reveal_strlit("stylus");
    reveal_strlit("pcss");
    reveal_strlit("html");
    reveal_strlit("htm");
    reveal_strlit("vue");
    reveal_strlit("svelte");
    reveal_strlit("erb");
    reveal_strlit("ejs");
    reveal_strlit("hbs");
    reveal_strlit("handlebars");
    reveal_strlit("pug");
    reveal_strlit("jade");
    reveal_strlit("slim");
    reveal_strlit("haml");
    reveal_strlit("twig");
    reveal_strlit("jinja");
    reveal_strlit("jinja2");
    reveal_strlit("mustache");
    reveal_strlit("njk");
    reveal_strlit("astro");
    reveal_strlit("exe");
    reveal_strlit("dll");
    reveal_strlit("obj");
    reveal_strlit("o");
    reveal_strlit("so");
    reveal_strlit("dylib");
    reveal_strlit("a");
    reveal_strlit("lib");
    reveal_strlit("pdb");
    reveal_strlit("class");
    reveal_strlit("pyc");
    reveal_strlit("pyo");
    reveal_strlit("wasm");
    reveal_strlit("bin");
    reveal_strlit("dat");
    reveal_strlit("db");
    reveal_strlit("sqlite");
    reveal_strlit("mdb");
    reveal_strlit("png");
    reveal_strlit("jpg");
    reveal_strlit("jpeg");
    reveal_strlit("gif");
    reveal_strlit("ico");
    reveal_strlit("bmp");
    reveal_strlit("tiff");
    reveal_strlit("tif");
    reveal_strlit("webp");
    reveal_strlit("avif");
    reveal_strlit("mp3");
    reveal_strlit("mp4");
    reveal_strlit("wav");
    reveal_strlit("flac");
    reveal_strlit("ogg");
    reveal_strlit("avi");
    reveal_strlit("mkv");
    reveal_strlit("mov");
    reveal_strlit("wmv");
    reveal_strlit("webm");
    reveal_strlit("aac");
    reveal_strlit("m4a");
    reveal_strlit("zip");
    reveal_strlit("tar");
    reveal_strlit("gz");
    reveal_strlit("bz2");
    reveal_strlit("xz");
    reveal_strlit("7z");
    reveal_strlit("rar");
    reveal_strlit("lz");
    reveal_strlit("lzma");
    reveal_strlit("zst");
    reveal_strlit("cab");
    reveal_strlit("dmg");
    reveal_strlit("iso");
    reveal_strlit("jar");
    reveal_strlit("war");
    reveal_strlit("ear");
    assert("rs"@.len() == 2 && "rs"@[0] == 'r' && "rs"@[1] == 's');
    assert("py"@.len() == 2 && "py"@[0] == 'p' && "py"@[1] == 'y');
    assert("js"@.len() == 2 && "js"@[0] == 'j' && "js"@[1] == 's');
    assert("jsx"@.len() == 3 && "jsx"@[0] == 'j' && "jsx"@[1] == 's' && "jsx"@[2] == 'x');
    assert("ts"@.len() == 2 && "ts"@[0] == 't' && "ts"@[1] == 's');
    assert("tsx"@.len() == 3 && "tsx"@[0] == 't' && "tsx"@[1] == 's' && "tsx"@[2] == 'x');
    assert("c"@.len() == 1 && "c"@[0] == 'c');
    assert("h"@.len() == 1 && "h"@[0] == 'h');
    assert("cpp"@.len() == 3 && "cpp"@[0] == 'c' && "cpp"@[1] == 'p' && "cpp"@[2] == 'p');
    assert("cc"@.len() == 2 && "cc"@[0] == 'c' && "cc"@[1] == 'c');
    assert("cxx"@.len() == 3 && "cxx"@[0] == 'c' && "cxx"@[1] == 'x' && "cxx"@[2] == 'x');
    assert("hpp"@.len() == 3 && "hpp"@[0] == 'h' && "hpp"@[1] == 'p' && "hpp"@[2] == 'p');
    assert("hxx"@.len() == 3 && "hxx"@[0] == 'h' && "hxx"@[1] == 'x' && "hxx"@[2] == 'x');
    assert("hh"@.len() == 2 && "hh"@[0] == 'h' && "hh"@[1] == 'h');
    assert("cs"@.len() == 2 && "cs"@[0] == 'c' && "cs"@[1] == 's');
    assert("java"@.len() == 4 && "java"@[0] == 'j' && "java"@[1] == 'a' && "java"@[2] == 'v' && "java"@[3] == 'a');
    assert("kt"@.len() == 2 && "kt"@[0] == 'k' && "kt"@[1] == 't');
    assert("kts"@.len() == 3 && "kts"@[0] == 'k' && "kts"@[1] == 't' && "kts"@[2] == 's');
    assert("go"@.len() == 2 && "go"@[0] == 'g' && "go"@[1] == 'o');
    assert("rb"@.len() == 2 && "rb"@[0] == 'r' && "rb"@[1] == 'b');
    assert("php"@.len() == 3 && "php"@[0] == 'p' && "php"@[1] == 'h' && "php"@[2] == 'p');
    assert("swift"@.len() == 5 && "swift"@[0] == 's' && "swift"@[1] == 'w' && "swift"@[2] == 'i' && "swift"@[3] == 'f' && "swift"@[4] == 't');
    assert("m"@.len() == 1 && "m"@[0] == 'm');
    assert("mm"@.len() == 2 && "mm"@[0] == 'm' && "mm"@[1] == 'm');
    assert("r"@.len() == 1 && "r"@[0] == 'r');
    assert("R"@.len() == 1 && "R"@[0] == 'R');
    assert("scala"@.len() == 5 && "scala"@[0] == 's' && "scala"@[1] == 'c' && "scala"@[2] == 'a' && "scala"@[3] == 'l' && "scala"@[4] == 'a');
    assert("clj"@.len() == 3 && "clj"@[0] == 'c' && "clj"@[1] == 'l' && "clj"@[2] == 'j');
    assert("cljs"@.len() == 4 && "cljs"@[0] == 'c' && "cljs"@[1] == 'l' && "cljs"@[2] == 'j' && "cljs"@[3] == 's');
    assert("erl"@.len() == 3 && "erl"@[0] == 'e' && "erl"@[1] == 'r' && "erl"@[2] == 'l');
    assert("ex"@.len() == 2 && "ex"@[0] == 'e' && "ex"@[1] == 'x');
    assert("exs"@.len() == 3 && "exs"@[0] == 'e' && "exs"@[1] == 'x' && "exs"@[2] == 's');
    assert("hs"@.len() == 2 && "hs"@[0] == 'h' && "hs"@[1] == 's');
    assert("lua"@.len() == 3 && "lua"@[0] == 'l' && "lua"@[1] == 'u' && "lua"@[2] == 'a');
    assert("pl"@.len() == 2 && "pl"@[0] == 'p' && "pl"@[1] == 'l');
    assert("pm"@.len() == 2 && "pm"@[0] == 'p' && "pm"@[1] == 'm');
    assert("sh"@.len() == 2 && "sh"@[0] == 's' && "sh"@[1] == 'h');
    assert("bash"@.len() == 4 && "bash"@[0] == 'b' && "bash"@[1] == 'a' && "bash"@[2] == 's' && "bash"@[3] == 'h');
    assert("zsh"@.len() == 3 && "zsh"@[0] == 'z' && "zsh"@[1] == 's' && "zsh"@[2] == 'h');
    assert("fish"@.len() == 4 && "fish"@[0] == 'f' && "fish"@[1] == 'i' && "fish"@[2] == 's' && "fish"@[3] == 'h');
    assert("ps1"@.len() == 3 && "ps1"@[0] == 'p' && "ps1"@[1] == 's' && "ps1"@[2] == '1');
    assert("bat"@.len() == 3 && "bat"@[0] == 'b' && "bat"@[1] == 'a' && "bat"@[2] == 't');
    assert("cmd"@.len() == 3 && "cmd"@[0] == 'c' && "cmd"@[1] == 'm' && "cmd"@[2] == 'd');
    assert("zig"@.len() == 3 && "zig"@[0] == 'z' && "zig"@[1] == 'i' && "zig"@[2] == 'g');
    assert("nim"@.len() == 3 && "nim"@[0] == 'n' && "nim"@[1] == 'i' && "nim"@[2] == 'm');
    assert("v"@.len() == 1 && "v"@[0] == 'v');
    assert("d"@.len() == 1 && "d"@[0] == 'd');
    assert("f90"@.len() == 3 && "f90"@[0] == 'f' && "f90"@[1] == '9' && "f90"@[2] == '0');
    assert("f95"@.len() == 3 && "f95"@[0] == 'f' && "f95"@[1] == '9' && "f95"@[2] == '5');
    assert("jl"@.len() == 2 && "jl"@[0] == 'j' && "jl"@[1] == 'l');
    assert("ml"@.len() == 2 && "ml"@[0] == 'm' && "ml"@[1] == 'l');
    assert("mli"@.len() == 3 && "mli"@[0] == 'm' && "mli"@[1] == 'l' && "mli"@[2] == 'i');
    assert("fs"@.len() == 2 && "fs"@[0] == 'f' && "fs"@[1] == 's');
    assert("fsx"@.len() == 3 && "fsx"@[0] == 'f' && "fsx"@[1] == 's' && "fsx"@[2] == 'x');
    assert("dart"@.len() == 4 && "dart"@[0] == 'd' && "dart"@[1] == 'a' && "dart"@[2] == 'r' && "dart"@[3] == 't');
    assert("groovy"@.len() == 6 && "groovy"@[0] == 'g' && "groovy"@[1] == 'r' && "groovy"@[2] == 'o' && "groovy"@[3] == 'o' && "groovy"@[4] == 'v' && "groovy"@[5] == 'y');
    assert("vb"@.len() == 2 && "vb"@[0] == 'v' && "vb"@[1] == 'b');
    assert("vbs"@.len() == 3 && "vbs"@[0] == 'v' && "vbs"@[1] == 'b' && "vbs"@[2] == 's');
    assert("asm"@.len() == 3 && "asm"@[0] == 'a' && "asm"@[1] == 's' && "asm"@[2] == 'm');
    assert("s"@.len() == 1 && "s"@[0] == 's');
    assert("S"@.len() == 1 && "S"@[0] == 'S');
    assert("toml"@.len() == 4 && "toml"@[0] == 't' && "toml"@[1] == 'o' && "toml"@[2] == 'm' && "toml"@[3] == 'l');
    assert("json"@.len() == 4 && "json"@[0] == 'j' && "json"@[1] == 's' && "json"@[2] == 'o' && "json"@[3] == 'n');
    assert("yaml"@.len() == 4 && "yaml"@[0] == 'y' && "yaml"@[1] == 'a' && "yaml"@[2] == 'm' && "yaml"@[3] == 'l');
    assert("yml"@.len() == 3 && "yml"@[0] == 'y' && "yml"@[1] == 'm' && "yml"@[2] == 'l');
    assert("xml"@.len() == 3 && "xml"@[0] == 'x' && "xml"@[1] == 'm' && "xml"@[2] == 'l');
    assert("ini"@.len() == 3 && "ini"@[0] == 'i' && "ini"@[1] == 'n' && "ini"@[2] == 'i');
    assert("cfg"@.len() == 3 && "cfg"@[0] == 'c' && "cfg"@[1] == 'f' && "cfg"@[2] == 'g');
    assert("conf"@.len() == 4 && "conf"@[0] == 'c' && "conf"@[1] == 'o' && "conf"@[2] == 'n' && "conf"@[3] == 'f');
    assert("env"@.len() == 3 && "env"@[0] == 'e' && "env"@[1] == 'n' && "env"@[2] == 'v');
    assert("properties"@.len() == 10 && "properties"@[0] == 'p' && "properties"@[1] == 'r' && "properties"@[2] == 'o' && "properties"@[3] == 'p' && "properties"@[4] == 'e' && "properties"@[5] == 'r' && "properties"@[6] == 't' && "properties"@[7] == 'i' && "properties"@[8] == 'e' && "properties"@[9] == 's');
    assert("plist"@.len() == 5 && "plist"@[0] == 'p' && "plist"@[1] == 'l' && "plist"@[2] == 'i' && "plist"@[3] == 's' && "plist"@[4] == 't');
    assert("editorconfig"@.len() == 12 && "editorconfig"@[0] == 'e' && "editorconfig"@[1] == 'd' && "editorconfig"@[2] == 'i' && "editorconfig"@[3] == 't' && "editorconfig"@[4] == 'o' && "editorconfig"@[5] == 'r' && "editorconfig"@[6] == 'c' && "editorconfig"@[7] == 'o' && "editorconfig"@[8] == 'n' && "editorconfig"@[9] == 'f' && "editorconfig"@[10] == 'i' && "editorconfig"@[11] == 'g');
    assert("eslintrc"@.len() == 8 && "eslintrc"@[0] == 'e' && "eslintrc"@[1] == 's' && "eslintrc"@[2] == 'l' && "eslintrc"@[3] == 'i' && "eslintrc"@[4] == 'n' && "eslintrc"@[5] == 't' && "eslintrc"@[6] == 'r' && "eslintrc"@[7] == 'c');
    assert("prettierrc"@.len() == 10 && "prettierrc"@[0] == 'p' && "prettierrc"@[1] == 'r' && "prettierrc"@[2] == 'e' && "prettierrc"@[3] == 't' && "prettierrc"@[4] == 't' && "prettierrc"@[5] == 'i' && "prettierrc"@[6] == 'e' && "prettierrc"@[7] == 'r' && "prettierrc"@[8] == 'r' && "prettierrc"@[9] == 'c');
    assert("babelrc"@.len() == 7 && "babelrc"@[0] == 'b' && "babelrc"@[1] == 'a' && "babelrc"@[2] == 'b' && "babelrc"@[3] == 'e' && "babelrc"@[4] == 'l' && "babelrc"@[5] == 'r' && "babelrc"@[6] == 'c');
    assert("nvmrc"@.len() == 5 && "nvmrc"@[0] == 'n' && "nvmrc"@[1] == 'v' && "nvmrc"@[2] == 'm' && "nvmrc"@[3] == 'r' && "nvmrc"@[4] == 'c');
    assert("dockerignore"@.len() == 12 && "dockerignore"@[0] == 'd' && "dockerignore"@[1] == 'o' && "dockerignore"@[2] == 'c' && "dockerignore"@[3] == 'k' && "dockerignore"@[4] == 'e' && "dockerignore"@[5] == 'r' && "dockerignore"@[6] == 'i' && "dockerignore"@[7] == 'g' && "dockerignore"@[8] == 'n' && "dockerignore"@[9] == 'o' && "dockerignore"@[10] == 'r' && "dockerignore"@[11] == 'e');
    assert("gitattributes"@.len() == 13 && "gitattributes"@[0] == 'g' && "gitattributes"@[1] == 'i' && "gitattributes"@[2] == 't' && "gitattributes"@[3] == 'a' && "gitattributes"@[4] == 't' && "gitattributes"@[5] == 't' && "gitattributes"@[6] == 'r' && "gitattributes"@[7] == 'i' && "gitattributes"@[8] == 'b' && "gitattributes"@[9] == 'u' && "gitattributes"@[10] == 't' && "gitattributes"@[11] == 'e' && "gitattributes"@[12] == 's');
    assert("md"@.len() == 2 && "md"@[0] == 'm' && "md"@[1] == 'd');
    assert("markdown"@.len() == 8 && "markdown"@[0] == 'm' && "markdown"@[1] == 'a' && "markdown"@[2] == 'r' && "markdown"@[3] == 'k' && "markdown"@[4] == 'd' && "markdown"@[5] == 'o' && "markdown"@[6] == 'w' && "markdown"@[7] == 'n');
    assert("txt"@.len() == 3 && "txt"@[0] == 't' && "txt"@[1] == 'x' && "txt"@[2] == 't');
    assert("rst"@.len() == 3 && "rst"@[0] == 'r' && "rst"@[1] == 's' && "rst"@[2] == 't');
    assert("adoc"@.len() == 4 && "adoc"@[0] == 'a' && "adoc"@[1] == 'd' && "adoc"@[2] == 'o' && "adoc"@[3] == 'c');
    assert("org"@.len() == 3 && "org"@[0] == 'o' && "org"@[1] == 'r' && "org"@[2] == 'g');
    assert("tex"@.len() == 3 && "tex"@[0] == 't' && "tex"@[1] == 'e' && "tex"@[2] == 'x');
    assert("latex"@.len() == 5 && "latex"@[0] == 'l' && "latex"@[1] == 'a' && "latex"@[2] == 't' && "latex"@[3] == 'e' && "latex"@[4] == 'x');
    assert("rdoc"@.len() == 4 && "rdoc"@[0] == 'r' && "rdoc"@[1] == 'd' && "rdoc"@[2] == 'o' && "rdoc"@[3] == 'c');
    assert("pod"@.len() == 3 && "pod"@[0] == 'p' && "pod"@[1] == 'o' && "pod"@[2] == 'd');
    assert("css"@.len() == 3 && "css"@[0] == 'c' && "css"@[1] == 's' && "css"@[2] == 's');
    assert("scss"@.len() == 4 && "scss"@[0] == 's' && "scss"@[1] == 'c' && "scss"@[2] == 's' && "scss"@[3] == 's');
    assert("sass"@.len() == 4 && "sass"@[0] == 's' && "sass"@[1] == 'a' && "sass"@[2] == 's' && "sass"@[3] == 's');
    assert("less"@.len() == 4 && "less"@[0] == 'l' && "less"@[1] == 'e' && "less"@[2] == 's' && "less"@[3] == 's');
    assert("styl"@.len() == 4 && "styl"@[0] == 's' && "styl"@[1] == 't' && "styl"@[2] == 'y' && "styl"@[3] == 'l');
    assert("stylus"@.len() == 6 && "stylus"@[0] == 's' && "stylus"@[1] == 't' && "stylus"@[2] == 'y' && "stylus"@[3] == 'l' && "stylus"@[4] == 'u' && "stylus"@[5] == 's');
    assert("pcss"@.len() == 4 && "pcss"@[0] == 'p' && "pcss"@[1] == 'c' && "pcss"@[2] == 's' && "pcss"@[3] == 's');
    assert("html"@.len() == 4 && "html"@[0] == 'h' && "html"@[1] == 't' && "html"@[2] == 'm' && "html"@[3] == 'l');
    assert("htm"@.len() == 3 && "htm"@[0] == 'h' && "htm"@[1] == 't' && "htm"@[2] == 'm');
    assert("vue"@.len() == 3 && "vue"@[0] == 'v' && "vue"@[1] == 'u' && "vue"@[2] == 'e');
    assert("svelte"@.len() == 6 && "svelte"@[0] == 's' && "svelte"@[1] == 'v' && "svelte"@[2] == 'e' && "svelte"@[3] == 'l' && "svelte"@[4] == 't' && "svelte"@[5] == 'e');
    assert("erb"@.len() == 3 && "erb"@[0] == 'e' && "erb"@[1] == 'r' && "erb"@[2] == 'b');
    assert("ejs"@.len() == 3 && "ejs"@[0] == 'e' && "ejs"@[1] == 'j' && "ejs"@[2] == 's');
    assert("hbs"@.len() == 3 && "hbs"@[0] == 'h' && "hbs"@[1] == 'b' && "hbs"@[2] == 's');
    assert("handlebars"@.len() == 10 && "handlebars"@[0] == 'h' && "handlebars"@[1] == 'a' && "handlebars"@[2] == 'n' && "handlebars"@[3] == 'd' && "handlebars"@[4] == 'l' && "handlebars"@[5] == 'e' && "handlebars"@[6] == 'b' && "handlebars"@[7] == 'a' && "handlebars"@[8] == 'r' && "handlebars"@[9] == 's');
    assert("pug"@.len() == 3 && "pug"@[0] == 'p' && "pug"@[1] == 'u' && "pug"@[2] == 'g');
    assert("jade"@.len() == 4 && "jade"@[0] == 'j' && "jade"@[1] == 'a' && "jade"@[2] == 'd' && "jade"@[3] == 'e');
    assert("slim"@.len() == 4 && "slim"@[0] == 's' && "slim"@[1] == 'l' && "slim"@[2] == 'i' && "slim"@[3] == 'm');
    assert("haml"@.len() == 4 && "haml"@[0] == 'h' && "haml"@[1] == 'a' && "haml"@[2] == 'm' && "haml"@[3] == 'l');
    assert("twig"@.len() == 4 && "twig"@[0] == 't' && "twig"@[1] == 'w' && "twig"@[2] == 'i' && "twig"@[3] == 'g');
    assert("jinja"@.len() == 5 && "jinja"@[0] == 'j' && "jinja"@[1] == 'i' && "jinja"@[2] == 'n' && "jinja"@[3] == 'j' && "jinja"@[4] == 'a');
    assert("jinja2"@.len() == 6 && "jinja2"@[0] == 'j' && "jinja2"@[1] == 'i' && "jinja2"@[2] == 'n' && "jinja2"@[3] == 'j' && "jinja2"@[4] == 'a' && "jinja2"@[5] == '2');
    assert("mustache"@.len() == 8 && "mustache"@[0] == 'm' && "mustache"@[1] == 'u' && "mustache"@[2] == 's' && "mustache"@[3] == 't' && "mustache"@[4] == 'a' && "mustache"@[5] == 'c' && "mustache"@[6] == 'h' && "mustache"@[7] == 'e');
    assert("njk"@.len() == 3 && "njk"@[0] == 'n' && "njk"@[1] == 'j' && "njk"@[2] == 'k');
    assert("astro"@.len() == 5 && "astro"@[0] == 'a' && "astro"@[1] == 's' && "astro"@[2] == 't' && "astro"@[3] == 'r' && "astro"@[4] == 'o');
    assert("exe"@.len() == 3 && "exe"@[0] == 'e' && "exe"@[1] == 'x' && "exe"@[2] == 'e');
    assert("dll"@.len() == 3 && "dll"@[0] == 'd' && "dll"@[1] == 'l' && "dll"@[2] == 'l');
    assert("obj"@.len() == 3 && "obj"@[0] == 'o' && "obj"@[1] == 'b' && "obj"@[2] == 'j');
    assert("o"@.len() == 1 && "o"@[0] == 'o');
    assert("so"@.len() == 2 && "so"@[0] == 's' && "so"@[1] == 'o');
    assert("dylib"@.len() == 5 && "dylib"@[0] == 'd' && "dylib"@[1] == 'y' && "dylib"@[2] == 'l' && "dylib"@[3] == 'i' && "dylib"@[4] == 'b');
    assert("a"@.len() == 1 && "a"@[0] == 'a');
    assert("lib"@.len() == 3 && "lib"@[0] == 'l' && "lib"@[1] == 'i' && "lib"@[2] == 'b');
    assert("pdb"@.len() == 3 && "pdb"@[0] == 'p' && "pdb"@[1] == 'd' && "pdb"@[2] == 'b');
    assert("class"@.len() == 5 && "class"@[0] == 'c' && "class"@[1] == 'l' && "class"@[2] == 'a' && "class"@[3] == 's' && "class"@[4] == 's');
    assert("pyc"@.len() == 3 && "pyc"@[0] == 'p' && "pyc"@[1] == 'y' && "pyc"@[2] == 'c');
    assert("pyo"@.len() == 3 && "pyo"@[0] == 'p' && "pyo"@[1] == 'y' && "pyo"@[2] == 'o');
    assert("wasm"@.len() == 4 && "wasm"@[0] == 'w' && "wasm"@[1] == 'a' && "wasm"@[2] == 's' && "wasm"@[3] == 'm');
    assert("bin"@.len() == 3 && "bin"@[0] == 'b' && "bin"@[1] == 'i' && "bin"@[2] == 'n');
    assert("dat"@.len() == 3 && "dat"@[0] == 'd' && "dat"@[1] == 'a' && "dat"@[2] == 't');
    assert("db"@.len() == 2 && "db"@[0] == 'd' && "db"@[1] == 'b');
    assert("sqlite"@.len() == 6 && "sqlite"@[0] == 's' && "sqlite"@[1] == 'q' && "sqlite"@[2] == 'l' && "sqlite"@[3] == 'i' && "sqlite"@[4] == 't' && "sqlite"@[5] == 'e');
    assert("mdb"@.len() == 3 && "mdb"@[0] == 'm' && "mdb"@[1] == 'd' && "mdb"@[2] == 'b');
    assert("png"@.len() == 3 && "png"@[0] == 'p' && "png"@[1] == 'n' && "png"@[2] == 'g');
    assert("jpg"@.len() == 3 && "jpg"@[0] == 'j' && "jpg"@[1] == 'p' && "jpg"@[2] == 'g');
    assert("jpeg"@.len() == 4 && "jpeg"@[0] == 'j' && "jpeg"@[1] == 'p' && "jpeg"@[2] == 'e' && "jpeg"@[3] == 'g');
    assert("gif"@.len() == 3 && "gif"@[0] == 'g' && "gif"@[1] == 'i' && "gif"@[2] == 'f');
    assert("ico"@.len() == 3 && "ico"@[0] == 'i' && "ico"@[1] == 'c' && "ico"@[2] == 'o');
    assert("bmp"@.len() == 3 && "bmp"@[0] == 'b' && "bmp"@[1] == 'm' && "bmp"@[2] == 'p');
    assert("tiff"@.len() == 4 && "tiff"@[0] == 't' && "tiff"@[1] == 'i' && "tiff"@[2] == 'f' && "tiff"@[3] == 'f');
    assert("tif"@.len() == 3 && "tif"@[0] == 't' && "tif"@[1] == 'i' && "tif"@[2] == 'f');
    assert("webp"@.len() == 4 && "webp"@[0] == 'w' && "webp"@[1] == 'e' && "webp"@[2] == 'b' && "webp"@[3] == 'p');
    assert("avif"@.len() == 4 && "avif"@[0] == 'a' && "avif"@[1] == 'v' && "avif"@[2] == 'i' && "avif"@[3] == 'f');
    assert("mp3"@.len() == 3 && "mp3"@[0] == 'm' && "mp3"@[1] == 'p' && "mp3"@[2] == '3');
    assert("mp4"@.len() == 3 && "mp4"@[0] == 'm' && "mp4"@[1] == 'p' && "mp4"@[2] == '4');
    assert("wav"@.len() == 3 && "wav"@[0] == 'w' && "wav"@[1] == 'a' && "wav"@[2] == 'v');
    assert("flac"@.len() == 4 && "flac"@[0] == 'f' && "flac"@[1] == 'l' && "flac"@[2] == 'a' && "flac"@[3] == 'c');
    assert("ogg"@.len() == 3 && "ogg"@[0] == 'o' && "ogg"@[1] == 'g' && "ogg"@[2] == 'g');
    assert("avi"@.len() == 3 && "avi"@[0] == 'a' && "avi"@[1] == 'v' && "avi"@[2] == 'i');
    assert("mkv"@.len() == 3 && "mkv"@[0] == 'm' && "mkv"@[1] == 'k' && "mkv"@[2] == 'v');
    assert("mov"@.len() == 3 && "mov"@[0] == 'm' && "mov"@[1] == 'o' && "mov"@[2] == 'v');
    assert("wmv"@.len() == 3 && "wmv"@[0] == 'w' && "wmv"@[1] == 'm' && "wmv"@[2] == 'v');
    assert("webm"@.len() == 4 && "webm"@[0] == 'w' && "webm"@[1] == 'e' && "webm"@[2] == 'b' && "webm"@[3] == 'm');
    assert("aac"@.len() == 3 && "aac"@[0] == 'a' && "aac"@[1] == 'a' && "aac"@[2] == 'c');
    assert("m4a"@.len() == 3 && "m4a"@[0] == 'm' && "m4a"@[1] == '4' && "m4a"@[2] == 'a');
    assert("zip"@.len() == 3 && "zip"@[0] == 'z' && "zip"@[1] == 'i' && "zip"@[2] == 'p');
    assert("tar"@.len() == 3 && "tar"@[0] == 't' && "tar"@[1] == 'a' && "tar"@[2] == 'r');
    assert("gz"@.len() == 2 && "gz"@[0] == 'g' && "gz"@[1] == 'z');
    assert("bz2"@.len() == 3 && "bz2"@[0] == 'b' && "bz2"@[1] == 'z' && "bz2"@[2] == '2');
    assert("xz"@.len() == 2 && "xz"@[0] == 'x' && "xz"@[1] == 'z');
    assert("7z"@.len() == 2 && "7z"@[0] == '7' && "7z"@[1] == 'z');
    assert("rar"@.len() == 3 && "rar"@[0] == 'r' && "rar"@[1] == 'a' && "rar"@[2] == 'r');
    assert("lz"@.len() == 2 && "lz"@[0] == 'l' && "lz"@[1] == 'z');
    assert("lzma"@.len() == 4 && "lzma"@[0] == 'l' && "lzma"@[1] == 'z' && "lzma"@[2] == 'm' && "lzma"@[3] == 'a');
    assert("zst"@.len() == 3 && "zst"@[0] == 'z' && "zst"@[1] == 's' && "zst"@[2] == 't');
    assert("cab"@.len() == 3 && "cab"@[0] == 'c' && "cab"@[1] == 'a' && "cab"@[2] == 'b');
    assert("dmg"@.len() == 3 && "dmg"@[0] == 'd' && "dmg"@[1] == 'm' && "dmg"@[2] == 'g');
    assert("iso"@.len() == 3 && "iso"@[0] == 'i' && "iso"@[1] == 's' && "iso"@[2] == 'o');
    assert("jar"@.len() == 3 && "jar"@[0] == 'j' && "jar"@[1] == 'a' && "jar"@[2] == 'r');
    assert("war"@.len() == 3 && "war"@[0] == 'w' && "war"@[1] == 'a' && "war"@[2] == 'r');
    assert("ear"@.len() == 3 && "ear"@[0] == 'e' && "ear"@[1] == 'a' && "ear"@[2] == 'r');
}

/// Law: font-file extensions are fonts.
pub proof fn lemma_font_extensions()
    ensures
        categorize_spec("ttf"@) == ExtensionCategory::Font,
        categorize_spec("otf"@) == ExtensionCategory::Font,
        categorize_spec("woff"@) == ExtensionCategory::Font,
        categorize_spec("woff2"@) == ExtensionCategory::Font,
        categorize_spec("eot"@) == ExtensionCategory::Font,
{
    reveal_strlit("rs");
    reveal_strlit("py");
    reveal_strlit("js");
    reveal_strlit("jsx");
    reveal_strlit("ts");
    reveal_strlit("tsx");
    reveal_strlit("c");
    reveal_strlit("h");
    reveal_strlit("cpp");
    reveal_strlit("cc");
    reveal_strlit("cxx");
    reveal_strlit("hpp");
    reveal_strlit("hxx");
    reveal_strlit("hh");
    reveal_strlit("cs");
    reveal_strlit("java");
    reveal_strlit("kt");
    reveal_strlit("kts");
    reveal_strlit("go");
    reveal_strlit("rb");
    reveal_strlit("php");
    reveal_strlit("swift");
    reveal_strlit("m");
    reveal_strlit("mm");
    reveal_strlit("r");
    reveal_strlit("R");
    reveal_strlit("scala");
    reveal_strlit("clj");
    reveal_strlit("cljs");
    reveal_strlit("erl");
    reveal_strlit("ex");
    reveal_strlit("exs");
    reveal_strlit("hs");
    reveal_strlit("lua");
    reveal_strlit("pl");
    reveal_strlit("pm");
    reveal_strlit("sh");
    reveal_strlit("bash");
    reveal_strlit("zsh");
    reveal_strlit("fish");
    reveal_strlit("ps1");
    reveal_strlit("bat");
    reveal_strlit("cmd");
    reveal_strlit("zig");
    reveal_strlit("nim");
    reveal_strlit("v");
    reveal_strlit("d");
    reveal_strlit("f90");
    reveal_strlit("f95");
    reveal_strlit("jl");
    reveal_strlit("ml");
    reveal_strlit("mli");
    reveal_strlit("fs");
    reveal_strlit("fsx");
    reveal_strlit("dart");
    reveal_strlit("groovy");
    reveal_strlit("vb");
    reveal_strlit("vbs");
    reveal_strlit("asm");
    reveal_strlit("s");
    reveal_strlit("S");
    reveal_strlit("toml");
    reveal_strlit("json");
    reveal_strlit("yaml");
    reveal_strlit("yml");
    reveal_strlit("xml");
    reveal_strlit("ini");
    reveal_strlit("cfg");
    reveal_strlit("conf");
    reveal_strlit("env");
    reveal_strlit("properties");
    reveal_strlit("plist");
    reveal_strlit("editorconfig");
    reveal_strlit("eslintrc");
    reveal_strlit("prettierrc");
    reveal_strlit("babelrc");
    reveal_strlit("nvmrc");
    reveal_strlit("dockerignore");
    reveal_strlit("gitattributes");
    reveal_strlit("md");
    reveal_strlit("markdown");
    reveal_strlit("txt");
    reveal_strlit("rst");
    reveal_strlit("adoc");
    reveal_strlit("org");
    reveal_strlit("tex");
    reveal_strlit("latex");
    reveal_strlit("rdoc");
    reveal_strlit("pod");
    reveal_strlit("css");
    reveal_strlit("scss");
    reveal_strlit("sass");
    reveal_strlit("less");
    reveal_strlit("styl");
    reveal_strlit("stylus");
    reveal_strlit("pcss");
    reveal_strlit("html");
    reveal_strlit("htm");
    reveal_strlit("vue");
    reveal_strlit("svelte");
    reveal_strlit("erb");
    reveal_strlit("ejs");
    reveal_strlit("hbs");
    reveal_strlit("handlebars");
    reveal_strlit("pug");
    reveal_strlit("jade");
    reveal_strlit("slim");
    reveal_strlit("haml");
    reveal_strlit("twig");
    reveal_strlit("jinja");
    reveal_strlit("jinja2");
    reveal_strlit("mustache");
    reveal_strlit("njk");
    reveal_strlit("astro");
    reveal_strlit("exe");
    reveal_strlit("dll");
    reveal_strlit("obj");
    reveal_strlit("o");
    reveal_strlit("so");
    reveal_strlit("dylib");
    reveal_strlit("a");
    reveal_strlit("lib");
    reveal_strlit("pdb");
    reveal_strlit("class");
    reveal_strlit("pyc");
    reveal_strlit("pyo");
    reveal_strlit("wasm");
    reveal_strlit("bin");
    reveal_strlit("dat");
    reveal_strlit("db");
    reveal_strlit("sqlite");
    reveal_strlit("mdb");
    reveal_strlit("png");
    reveal_strlit("jpg");
    reveal_strlit("jpeg");
    reveal_strlit("gif");
    reveal_strlit("ico");
    reveal_strlit("bmp");
    reveal_strlit("tiff");
    reveal_strlit("tif");
    reveal_strlit("webp");
    reveal_strlit("avif");
    reveal_strlit("mp3");
    reveal_strlit("mp4");
    reveal_strlit("wav");
    reveal_strlit("flac");
    reveal_strlit("ogg");
    reveal_strlit("avi");
    reveal_strlit("mkv");
    reveal_strlit("mov");
    reveal_strlit("wmv");
    reveal_strlit("webm");
    reveal_strlit("aac");
    reveal_strlit("m4a");
    reveal_strlit("zip");
    reveal_strlit("tar");
    reveal_strlit("gz");
    reveal_strlit("bz2");
    reveal_strlit("xz");
    reveal_strlit("7z");
    reveal_strlit("rar");
    reveal_strlit("lz");
    reveal_strlit("lzma");
    reveal_strlit("zst");
    reveal_strlit("cab");
    reveal_strlit("dmg");
    reveal_strlit("iso");
    reveal_strlit("jar");
    reveal_strlit("war");
    reveal_strlit("ear");
    reveal_strlit("ttf");
    reveal_strlit("otf");
    reveal_strlit("woff");
    reveal_strlit("woff2");
    reveal_strlit("eot");
    assert("rs"@.len() == 2 && "rs"@[0] == 'r' && "rs"@[1] == 's');
    assert("py"@.len() == 2 && "py"@[0] == 'p' && "py"@[1] == 'y');
    assert("js"@.len() == 2 && "js"@[0] == 'j' && "js"@[1] == 's');
    assert("jsx"@.len() == 3 && "jsx"@[0] == 'j' && "jsx"@[1] == 's' && "jsx"@[2] == 'x');
    assert("ts"@.len() == 2 && "ts"@[0] == 't' && "ts"@[1] == 's');
    assert("tsx"@.len() == 3 && "tsx"@[0] == 't' && "tsx"@[1] == 's' && "tsx"@[2] == 'x');
    assert("c"@.len() == 1 && "c"@[0] == 'c');
    assert("h"@.len() == 1 && "h"@[0] == 'h');
    assert("cpp"@.len() == 3 && "cpp"@[0] == 'c' && "cpp"@[1] == 'p' && "cpp"@[2] == 'p');
    assert("cc"@.len() == 2 && "cc"@[0] == 'c' && "cc"@[1] == 'c');
    assert("cxx"@.len() == 3 && "cxx"@[0] == 'c' && "cxx"@[1] == 'x' && "cxx"@[2] == 'x');
    assert("hpp"@.len() == 3 && "hpp"@[0] == 'h' && "hpp"@[1] == 'p' && "hpp"@[2] == 'p');
    assert("hxx"@.len() == 3 && "hxx"@[0] == 'h' && "hxx"@[1] == 'x' && "hxx"@[2] == 'x');
    assert("hh"@.len() == 2 && "hh"@[0] == 'h' && "hh"@[1] == 'h');
    assert("cs"@.len() == 2 && "cs"@[0] == 'c' && "cs"@[1] == 's');
    assert("java"@.len() == 4 && "java"@[0] == 'j' && "java"@[1] == 'a' && "java"@[2] == 'v' && "java"@[3] == 'a');
    assert("kt"@.len() == 2 && "kt"@[0] == 'k' && "kt"@[1] == 't');
    assert("kts"@.len() == 3 && "kts"@[0] == 'k' && "kts"@[1] == 't' && "kts"@[2] == 's');
    assert("go"@.len() == 2 && "go"@[0] == 'g' && "go"@[1] == 'o');
    assert("rb"@.len() == 2 && "rb"@[0] == 'r' && "rb"@[1] == 'b');
    assert("php"@.len() == 3 && "php"@[0] == 'p' && "php"@[1] == 'h' && "php"@[2] == 'p');
    assert("swift"@.len() == 5 && "swift"@[0] == 's' && "swift"@[1] == 'w' && "swift"@[2] == 'i' && "swift"@[3] == 'f' && "swift"@[4] == 't');
    assert("m"@.len() == 1 && "m"@[0] == 'm');
    assert("mm"@.len() == 2 && "mm"@[0] == 'm' && "mm"@[1] == 'm');
    assert("r"@.len() == 1 && "r"@[0] == 'r');
    assert("R"@.len() == 1 && "R"@[0] == 'R');
    assert("scala"@.len() == 5 && "scala"@[0] == 's' && "scala"@[1] == 'c' && "scala"@[2] == 'a' && "scala"@[3] == 'l' && "scala"@[4] == 'a');
    assert("clj"@.len() == 3 && "clj"@[0] == 'c' && "clj"@[1] == 'l' && "clj"@[2] == 'j');
    assert("cljs"@.len() == 4 && "cljs"@[0] == 'c' && "cljs"@[1] == 'l' && "cljs"@[2] == 'j' && "cljs"@[3] == 's');
    assert("erl"@.len() == 3 && "erl"@[0] == 'e' && "erl"@[1] == 'r' && "erl"@[2] == 'l');
    assert("ex"@.len() == 2 && "ex"@[0] == 'e' && "ex"@[1] == 'x');
    assert("exs"@.len() == 3 && "exs"@[0] == 'e' && "exs"@[1] == 'x' && "exs"@[2] == 's');
    assert("hs"@.len() == 2 && "hs"@[0] == 'h' && "hs"@[1] == 's');
    assert("lua"@.len() == 3 && "lua"@[0] == 'l' && "lua"@[1] == 'u' && "lua"@[2] == 'a');
    assert("pl"@.len() == 2 && "pl"@[0] == 'p' && "pl"@[1] == 'l');
    assert("pm"@.len() == 2 && "pm"@[0] == 'p' && "pm"@[1] == 'm');
    assert("sh"@.len() == 2 && "sh"@[0] == 's' && "sh"@[1] == 'h');
    assert("bash"@.len() == 4 && "bash"@[0] == 'b' && "bash"@[1] == 'a' && "bash"@[2] == 's' && "bash"@[3] == 'h');
    assert("zsh"@.len() == 3 && "zsh"@[0] == 'z' && "zsh"@[1] == 's' && "zsh"@[2] == 'h');
    assert("fish"@.len() == 4 && "fish"@[0] == 'f' && "fish"@[1] == 'i' && "fish"@[2] == 's' && "fish"@[3] == 'h');
    assert("ps1"@.len() == 3 && "ps1"@[0] == 'p' && "ps1"@[1] == 's' && "ps1"@[2] == '1');
    assert("bat"@.len() == 3 && "bat"@[0] == 'b' && "bat"@[1] == 'a' && "bat"@[2] == 't');
    assert("cmd"@.len() == 3 && "cmd"@[0] == 'c' && "cmd"@[1] == 'm' && "cmd"@[2] == 'd');
    assert("zig"@.len() == 3 && "zig"@[0] == 'z' && "zig"@[1] == 'i' && "zig"@[2] == 'g');
    assert("nim"@.len() == 3 && "nim"@[0] == 'n' && "nim"@[1] == 'i' && "nim"@[2] == 'm');
    assert("v"@.len() == 1 && "v"@[0] == 'v');
    assert("d"@.len() == 1 && "d"@[0] == 'd');
    assert("f90"@.len() == 3 && "f90"@[0] == 'f' && "f90"@[1] == '9' && "f90"@[2] == '0');
    assert("f95"@.len() == 3 && "f95"@[0] == 'f' && "f95"@[1] == '9' && "f95"@[2] == '5');
    assert("jl"@.len() == 2 && "jl"@[0] == 'j' && "jl"@[1] == 'l');
    assert("ml"@.len() == 2 && "ml"@[0] == 'm' && "ml"@[1] == 'l');
    assert("mli"@.len() == 3 && "mli"@[0] == 'm' && "mli"@[1] == 'l' && "mli"@[2] == 'i');
    assert("fs"@.len() == 2 && "fs"@[0] == 'f' && "fs"@[1] == 's');
    assert("fsx"@.len() == 3 && "fsx"@[0] == 'f' && "fsx"@[1] == 's' && "fsx"@[2] == 'x');
    assert("dart"@.len() == 4 && "dart"@[0] == 'd' && "dart"@[1] == 'a' && "dart"@[2] == 'r' && "dart"@[3] == 't');
    assert("groovy"@.len() == 6 && "groovy"@[0] == 'g' && "groovy"@[1] == 'r' && "groovy"@[2] == 'o' && "groovy"@[3] == 'o' && "groovy"@[4] == 'v' && "groovy"@[5] == 'y');
    assert("vb"@.len() == 2 && "vb"@[0] == 'v' && "vb"@[1] == 'b');
    assert("vbs"@.len() == 3 && "vbs"@[0] == 'v' && "vbs"@[1] == 'b' && "vbs"@[2] == 's');
    assert("asm"@.len() == 3 && "asm"@[0] == 'a' && "asm"@[1] == 's' && "asm"@[2] == 'm');
    assert("s"@.len() == 1 && "s"@[0] == 's');
    assert("S"@.len() == 1 && "S"@[0] == 'S');
    assert("toml"@.len() == 4 && "toml"@[0] == 't' && "toml"@[1] == 'o' && "toml"@[2] == 'm' && "toml"@[3] == 'l');
    assert("json"@.len() == 4 && "json"@[0] == 'j' && "json"@[1] == 's' && "json"@[2] == 'o' && "json"@[3] == 'n');
    assert("yaml"@.len() == 4 && "yaml"@[0] == 'y' && "yaml"@[1] == 'a' && "yaml"@[2] == 'm' && "yaml"@[3] == 'l');
    assert("yml"@.len() == 3 && "yml"@[0] == 'y' && "yml"@[1] == 'm' && "yml"@[2] == 'l');
    assert("xml"@.len() == 3 && "xml"@[0] == 'x' && "xml"@[1] == 'm' && "xml"@[2] == 'l');
    assert("ini"@.len() == 3 && "ini"@[0] == 'i' && "ini"@[1] == 'n' && "ini"@[2] == 'i');
    assert("cfg"@.len() == 3 && "cfg"@[0] == 'c' && "cfg"@[1] == 'f' && "cfg"@[2] == 'g');
    assert("conf"@.len() == 4 && "conf"@[0] == 'c' && "conf"@[1] == 'o' && "conf"@[2] == 'n' && "conf"@[3] == 'f');
    assert("env"@.len() == 3 && "env"@[0] == 'e' && "env"@[1] == 'n' && "env"@[2] == 'v');
    assert("properties"@.len() == 10 && "properties"@[0] == 'p' && "properties"@[1] == 'r' && "properties"@[2] == 'o' && "properties"@[3] == 'p' && "properties"@[4] == 'e' && "properties"@[5] == 'r' && "properties"@[6] == 't' && "properties"@[7] == 'i' && "properties"@[8] == 'e' && "properties"@[9] == 's');
    assert("plist"@.len() == 5 && "plist"@[0] == 'p' && "plist"@[1] == 'l' && "plist"@[2] == 'i' && "plist"@[3] == 's' && "plist"@[4] == 't');
    assert("editorconfig"@.len() == 12 && "editorconfig"@[0] == 'e' && "editorconfig"@[1] == 'd' && "editorconfig"@[2] == 'i' && "editorconfig"@[3] == 't' && "editorconfig"@[4] == 'o' && "editorconfig"@[5] == 'r' && "editorconfig"@[6] == 'c' && "editorconfig"@[7] == 'o' && "editorconfig"@[8] == 'n' && "editorconfig"@[9] == 'f' && "editorconfig"@[10] == 'i' && "editorconfig"@[11] == 'g');
    assert("eslintrc"@.len() == 8 && "eslintrc"@[0] == 'e' && "eslintrc"@[1] == 's' && "eslintrc"@[2] == 'l' && "eslintrc"@[3] == 'i' && "eslintrc"@[4] == 'n' && "eslintrc"@[5] == 't' && "eslintrc"@[6] == 'r' && "eslintrc"@[7] == 'c');
    assert("prettierrc"@.len() == 10 && "prettierrc"@[0] == 'p' && "prettierrc"@[1] == 'r' && "prettierrc"@[2] == 'e' && "prettierrc"@[3] == 't' && "prettierrc"@[4] == 't' && "prettierrc"@[5] == 'i' && "prettierrc"@[6] == 'e' && "prettierrc"@[7] == 'r' && "prettierrc"@[8] == 'r' && "prettierrc"@[9] == 'c');
    assert("babelrc"@.len() == 7 && "babelrc"@[0] == 'b' && "babelrc"@[1] == 'a' && "babelrc"@[2] == 'b' && "babelrc"@[3] == 'e' && "babelrc"@[4] == 'l' && "babelrc"@[5] == 'r' && "babelrc"@[6] == 'c');
    assert("nvmrc"@.len() == 5 && "nvmrc"@[0] == 'n' && "nvmrc"@[1] == 'v' && "nvmrc"@[2] == 'm' && "nvmrc"@[3] == 'r' && "nvmrc"@[4] == 'c');
    assert("dockerignore"@.len() == 12 && "dockerignore"@[0] == 'd' && "dockerignore"@[1] == 'o' && "dockerignore"@[2] == 'c' && "dockerignore"@[3] == 'k' && "dockerignore"@[4] == 'e' && "dockerignore"@[5] == 'r' && "dockerignore"@[6] == 'i' && "dockerignore"@[7] == 'g' && "dockerignore"@[8] == 'n' && "dockerignore"@[9] == 'o' && "dockerignore"@[10] == 'r' && "dockerignore"@[11] == 'e');
    assert("gitattributes"@.len() == 13 && "gitattributes"@[0] == 'g' && "gitattributes"@[1] == 'i' && "gitattributes"@[2] == 't' && "gitattributes"@[3] == 'a' && "gitattributes"@[4] == 't' && "gitattributes"@[5] == 't' && "gitattributes"@[6] == 'r' && "gitattributes"@[7] == 'i' && "gitattributes"@[8] == 'b' && "gitattributes"@[9] == 'u' && "gitattributes"@[10] == 't' && "gitattributes"@[11] == 'e' && "gitattributes"@[12] == 's');
    assert("md"@.len() == 2 && "md"@[0] == 'm' && "md"@[1] == 'd');
    assert("markdown"@.len() == 8 && "markdown"@[0] == 'm' && "markdown"@[1] == 'a' && "markdown"@[2] == 'r' && "markdown"@[3] == 'k' && "markdown"@[4] == 'd' && "markdown"@[5] == 'o' && "markdown"@[6] == 'w' && "markdown"@[7] == 'n');
    assert("txt"@.len() == 3 && "txt"@[0] == 't' && "txt"@[1] == 'x' && "txt"@[2] == 't');
    assert("rst"@.len() == 3 && "rst"@[0] == 'r' && "rst"@[1] == 's' && "rst"@[2] == 't');
    assert("adoc"@.len() == 4 && "adoc"@[0] == 'a' && "adoc"@[1] == 'd' && "adoc"@[2] == 'o' && "adoc"@[3] == 'c');
    assert("org"@.len() == 3 && "org"@[0] == 'o' && "org"@[1] == 'r' && "org"@[2] == 'g');
    assert("tex"@.len() == 3 && "tex"@[0] == 't' && "tex"@[1] == 'e' && "tex"@[2] == 'x');
    assert("latex"@.len() == 5 && "latex"@[0] == 'l' && "latex"@[1] == 'a' && "latex"@[2] == 't' && "latex"@[3] == 'e' && "latex"@[4] == 'x');
    assert("rdoc"@.len() == 4 && "rdoc"@[0] == 'r' && "rdoc"@[1] == 'd' && "rdoc"@[2] == 'o' && "rdoc"@[3] == 'c');
    assert("pod"@.len() == 3 && "pod"@[0] == 'p' && "pod"@[1] == 'o' && "pod"@[2] == 'd');
    assert("css"@.len() == 3 && "css"@[0] == 'c' && "css"@[1] == 's' && "css"@[2] == 's');
    assert("scss"@.len() == 4 && "scss"@[0] == 's' && "scss"@[1] == 'c' && "scss"@[2] == 's' && "scss"@[3] == 's');
    assert("sass"@.len() == 4 && "sass"@[0] == 's' && "sass"@[1] == 'a' && "sass"@[2] == 's' && "sass"@[3] == 's');
    assert("less"@.len() == 4 && "less"@[0] == 'l' && "less"@[1] == 'e' && "less"@[2] == 's' && "less"@[3] == 's');
    assert("styl"@.len() == 4 && "styl"@[0] == 's' && "styl"@[1] == 't' && "styl"@[2] == 'y' && "styl"@[3] == 'l');
    assert("stylus"@.len() == 6 && "stylus"@[0] == 's' && "stylus"@[1] == 't' && "stylus"@[2] == 'y' && "stylus"@[3] == 'l' && "stylus"@[4] == 'u' && "stylus"@[5] == 's');
    assert("pcss"@.len() == 4 && "pcss"@[0] == 'p' && "pcss"@[1] == 'c' && "pcss"@[2] == 's' && "pcss"@[3] == 's');
    assert("html"@.len() == 4 && "html"@[0] == 'h' && "html"@[1] == 't' && "html"@[2] == 'm' && "html"@[3] == 'l');
    assert("htm"@.len() == 3 && "htm"@[0] == 'h' && "htm"@[1] == 't' && "htm"@[2] == 'm');
    assert("vue"@.len() == 3 && "vue"@[0] == 'v' && "vue"@[1] == 'u' && "vue"@[2] == 'e');
    assert("svelte"@.len() == 6 && "svelte"@[0] == 's' && "svelte"@[1] == 'v' && "svelte"@[2] == 'e' && "svelte"@[3] == 'l' && "svelte"@[4] == 't' && "svelte"@[5] == 'e');
    assert("erb"@.len() == 3 && "erb"@[0] == 'e' && "erb"@[1] == 'r' && "erb"@[2] == 'b');
    assert("ejs"@.len() == 3 && "ejs"@[0] == 'e' && "ejs"@[1] == 'j' && "ejs"@[2] == 's');
    assert("hbs"@.len() == 3 && "hbs"@[0] == 'h' && "hbs"@[1] == 'b' && "hbs"@[2] == 's');
    assert("handlebars"@.len() == 10 && "handlebars"@[0] == 'h' && "handlebars"@[1] == 'a' && "handlebars"@[2] == 'n' && "handlebars"@[3] == 'd' && "handlebars"@[4] == 'l' && "handlebars"@[5] == 'e' && "handlebars"@[6] == 'b' && "handlebars"@[7] == 'a' && "handlebars"@[8] == 'r' && "handlebars"@[9] == 's');
    assert("pug"@.len() == 3 && "pug"@[0] == 'p' && "pug"@[1] == 'u' && "pug"@[2] == 'g');
    assert("jade"@.len() == 4 && "jade"@[0] == 'j' && "jade"@[1] == 'a' && "jade"@[2] == 'd' && "jade"@[3] == 'e');
    assert("slim"@.len() == 4 && "slim"@[0] == 's' && "slim"@[1] == 'l' && "slim"@[2] == 'i' && "slim"@[3] == 'm');
    assert("haml"@.len() == 4 && "haml"@[0] == 'h' && "haml"@[1] == 'a' && "haml"@[2] == 'm' && "haml"@[3] == 'l');
    assert("twig"@.len() == 4 && "twig"@[0] == 't' && "twig"@[1] == 'w' && "twig"@[2] == 'i' && "twig"@[3] == 'g');
    assert("jinja"@.len() == 5 && "jinja"@[0] == 'j' && "jinja"@[1] == 'i' && "jinja"@[2] == 'n' && "jinja"@[3] == 'j' && "jinja"@[4] == 'a');
    assert("jinja2"@.len() == 6 && "jinja2"@[0] == 'j' && "jinja2"@[1] == 'i' && "jinja2"@[2] == 'n' && "jinja2"@[3] == 'j' && "jinja2"@[4] == 'a' && "jinja2"@[5] == '2');
    assert("mustache"@.len() == 8 && "mustache"@[0] == 'm' && "mustache"@[1] == 'u' && "mustache"@[2] == 's' && "mustache"@[3] == 't' && "mustache"@[4] == 'a' && "mustache"@[5] == 'c' && "mustache"@[6] == 'h' && "mustache"@[7] == 'e');
    assert("njk"@.len() == 3 && "njk"@[0] == 'n' && "njk"@[1] == 'j' && "njk"@[2] == 'k');
    assert("astro"@.len() == 5 && "astro"@[0] == 'a' && "astro"@[1] == 's' && "astro"@[2] == 't' && "astro"@[3] == 'r' && "astro"@[4] == 'o');
    assert("exe"@.len() == 3 && "exe"@[0] == 'e' && "exe"@[1] == 'x' && "exe"@[2] == 'e');
    assert("dll"@.len() == 3 && "dll"@[0] == 'd' && "dll"@[1] == 'l' && "dll"@[2] == 'l');
    assert("obj"@.len() == 3 && "obj"@[0] == 'o' && "obj"@[1] == 'b' && "obj"@[2] == 'j');
    assert("o"@.len() == 1 && "o"@[0] == 'o');
    assert("so"@.len() == 2 && "so"@[0] == 's' && "so"@[1] == 'o');
    assert("dylib"@.len() == 5 && "dylib"@[0] == 'd' && "dylib"@[1] == 'y' && "dylib"@[2] == 'l' && "dylib"@[3] == 'i' && "dylib"@[4] == 'b');
    assert("a"@.len() == 1 && "a"@[0] == 'a');
    assert("lib"@.len() == 3 && "lib"@[0] == 'l' && "lib"@[1] == 'i' && "lib"@[2] == 'b');
    assert("pdb"@.len() == 3 && "pdb"@[0] == 'p' && "pdb"@[1] == 'd' && "pdb"@[2] == 'b');
    assert("class"@.len() == 5 && "class"@[0] == 'c' && "class"@[1] == 'l' && "class"@[2] == 'a' && "class"@[3] == 's' && "class"@[4] == 's');
    assert("pyc"@.len() == 3 && "pyc"@[0] == 'p' && "pyc"@[1] == 'y' && "pyc"@[2] == 'c');
    assert("pyo"@.len() == 3 && "pyo"@[0] == 'p' && "pyo"@[1] == 'y' && "pyo"@[2] == 'o');
    assert("wasm"@.len() == 4 && "wasm"@[0] == 'w' && "wasm"@[1] == 'a' && "wasm"@[2] == 's' && "wasm"@[3] == 'm');
    assert("bin"@.len() == 3 && "bin"@[0] == 'b' && "bin"@[1] == 'i' && "bin"@[2] == 'n');
    assert("dat"@.len() == 3 && "dat"@[0] == 'd' && "dat"@[1] == 'a' && "dat"@[2] == 't');
    assert("db"@.len() == 2 && "db"@[0] == 'd' && "db"@[1] == 'b');
    assert("sqlite"@.len() == 6 && "sqlite"@[0] == 's' && "sqlite"@[1] == 'q' && "sqlite"@[2] == 'l' && "sqlite"@[3] == 'i' && "sqlite"@[4] == 't' && "sqlite"@[5] == 'e');
    assert("mdb"@.len() == 3 && "mdb"@[0] == 'm' && "mdb"@[1] == 'd' && "mdb"@[2] == 'b');
    assert("png"@.len() == 3 && "png"@[0] == 'p' && "png"@[1] == 'n' && "png"@[2] == 'g');
    assert("jpg"@.len() == 3 && "jpg"@[0] == 'j' && "jpg"@[1] == 'p' && "jpg"@[2] == 'g');
    assert("jpeg"@.len() == 4 && "jpeg"@[0] == 'j' && "jpeg"@[1] == 'p' && "jpeg"@[2] == 'e' && "jpeg"@[3] == 'g');
    assert("gif"@.len() == 3 && "gif"@[0] == 'g' && "gif"@[1] == 'i' && "gif"@[2] == 'f');
    assert("ico"@.len() == 3 && "ico"@[0] == 'i' && "ico"@[1] == 'c' && "ico"@[2] == 'o');
    assert("bmp"@.len() == 3 && "bmp"@[0] == 'b' && "bmp"@[1] == 'm' && "bmp"@[2] == 'p');
    assert("tiff"@.len() == 4 && "tiff"@[0] == 't' && "tiff"@[1] == 'i' && "tiff"@[2] == 'f' && "tiff"@[3] == 'f');
    assert("tif"@.len() == 3 && "tif"@[0] == 't' && "tif"@[1] == 'i' && "tif"@[2] == 'f');
    assert("webp"@.len() == 4 && "webp"@[0] == 'w' && "webp"@[1] == 'e' && "webp"@[2] == 'b' && "webp"@[3] == 'p');
    assert("avif"@.len() == 4 && "avif"@[0] == 'a' && "avif"@[1] == 'v' && "avif"@[2] == 'i' && "avif"@[3] == 'f');
    assert("mp3"@.len() == 3 && "mp3"@[0] == 'm' && "mp3"@[1] == 'p' && "mp3"@[2] == '3');
    assert("mp4"@.len() == 3 && "mp4"@[0] == 'm' && "mp4"@[1] == 'p' && "mp4"@[2] == '4');
    assert("wav"@.len() == 3 && "wav"@[0] == 'w' && "wav"@[1] == 'a' && "wav"@[2] == 'v');
    assert("flac"@.len() == 4 && "flac"@[0] == 'f' && "flac"@[1] == 'l' && "flac"@[2] == 'a' && "flac"@[3] == 'c');
    assert("ogg"@.len() == 3 && "ogg"@[0] == 'o' && "ogg"@[1] == 'g' && "ogg"@[2] == 'g');
    assert("avi"@.len() == 3 && "avi"@[0] == 'a' && "avi"@[1] == 'v' && "avi"@[2] == 'i');
    assert("mkv"@.len() == 3 && "mkv"@[0] == 'm' && "mkv"@[1] == 'k' && "mkv"@[2] == 'v');
    assert("mov"@.len() == 3 && "mov"@[0] == 'm' && "mov"@[1] == 'o' && "mov"@[2] == 'v');
    assert("wmv"@.len() == 3 && "wmv"@[0] == 'w' && "wmv"@[1] == 'm' && "wmv"@[2] == 'v');
    assert("webm"@.len() == 4 && "webm"@[0] == 'w' && "webm"@[1] == 'e' && "webm"@[2] == 'b' && "webm"@[3] == 'm');
    assert("aac"@.len() == 3 && "aac"@[0] == 'a' && "aac"@[1] == 'a' && "aac"@[2] == 'c');
    assert("m4a"@.len() == 3 && "m4a"@[0] == 'm' && "m4a"@[1] == '4' && "m4a"@[2] == 'a');
    assert("zip"@.len() == 3 && "zip"@[0] == 'z' && "zip"@[1] == 'i' && "zip"@[2] == 'p');
    assert("tar"@.len() == 3 && "tar"@[0] == 't' && "tar"@[1] == 'a' && "tar"@[2] == 'r');
    assert("gz"@.len() == 2 && "gz"@[0] == 'g' && "gz"@[1] == 'z');
    assert("bz2"@.len() == 3 && "bz2"@[0] == 'b' && "bz2"@[1] == 'z' && "bz2"@[2] == '2');
    assert("xz"@.len() == 2 && "xz"@[0] == 'x' && "xz"@[1] == 'z');
    assert("7z"@.len() == 2 && "7z"@[0] == '7' && "7z"@[1] == 'z');
    assert("rar"@.len() == 3 && "rar"@[0] == 'r' && "rar"@[1] == 'a' && "rar"@[2] == 'r');
    assert("lz"@.len() == 2 && "lz"@[0] == 'l' && "lz"@[1] == 'z');
    assert("lzma"@.len() == 4 && "lzma"@[0] == 'l' && "lzma"@[1] == 'z' && "lzma"@[2] == 'm' && "lzma"@[3] == 'a');
    assert("zst"@.len() == 3 && "zst"@[0] == 'z' && "zst"@[1] == 's' && "zst"@[2] == 't');
    assert("cab"@.len() == 3 && "cab"@[0] == 'c' && "cab"@[1] == 'a' && "cab"@[2] == 'b');
    assert("dmg"@.len() == 3 && "dmg"@[0] == 'd' && "dmg"@[1] == 'm' && "dmg"@[2] == 'g');
    assert("iso"@.len() == 3 && "iso"@[0] == 'i' && "iso"@[1] == 's' && "iso"@[2] == 'o');
    assert("jar"@.len() == 3 && "jar"@[0] == 'j' && "jar"@[1] == 'a' && "jar"@[2] == 'r');
    assert("war"@.len() == 3 && "war"@[0] == 'w' && "war"@[1] == 'a' && "war"@[2] == 'r');
    assert("ear"@.len() == 3 && "ear"@[0] == 'e' && "ear"@[1] == 'a' && "ear"@[2] == 'r');
    assert("ttf"@.len() == 3 && "ttf"@[0] == 't' && "ttf"@[1] == 't' && "ttf"@[2] == 'f');
    assert("otf"@.len() == 3 && "otf"@[0] == 'o' && "otf"@[1] == 't' && "otf"@[2] == 'f');
    assert("woff"@.len() == 4 && "woff"@[0] == 'w' && "woff"@[1] == 'o' && "woff"@[2] == 'f' && "woff"@[3] == 'f');
    assert("woff2"@.len() == 5 && "woff2"@[0] == 'w' && "woff2"@[1] == 'o' && "woff2"@[2] == 'f' && "woff2"@[3] == 'f' && "woff2"@[4] == '2');
    assert("eot"@.len() == 3 && "eot"@[0] == 'e' && "eot"@[1] == 'o' && "eot"@[2] == 't');
}

/// Law: PDFs, source maps and bundles are generated files.
pub proof fn lemma_generated_extensions()
    ensures
        categorize_spec("pdf"@) == ExtensionCategory::Generated,
        categorize_spec("map"@) == ExtensionCategory::Generated,
        categorize_spec("min"@) == ExtensionCategory::Generated,
        categorize_spec("bundle"@) == ExtensionCategory::Generated,
        categorize_spec("chunk"@) == ExtensionCategory::Generated,
{
    reveal_strlit("rs");
    reveal_strlit("py");
    reveal_strlit("js");
    reveal_strlit("jsx");
    reveal_strlit("ts");
    reveal_strlit("tsx");
    reveal_strlit("c");
    reveal_strlit("h");
    reveal_strlit("cpp");
    reveal_strlit("cc");
    reveal_strlit("cxx");
    reveal_strlit("hpp");
    reveal_strlit("hxx");
    reveal_strlit("hh");
    reveal_strlit("cs");
    reveal_strlit("java");
    reveal_strlit("kt");
    reveal_strlit("kts");
    reveal_strlit("go");
    reveal_strlit("rb");
    reveal_strlit("php");
    reveal_strlit("swift");
    reveal_strlit("m");
    reveal_strlit("mm");
    reveal_strlit("r");
    reveal_strlit("R");
    reveal_strlit("scala");
    reveal_strlit("clj");
    reveal_strlit("cljs");
    reveal_strlit("erl");
    reveal_strlit("ex");
    reveal_strlit("exs");
    reveal_strlit("hs");
    reveal_strlit("lua");
    reveal_strlit("pl");
    reveal_strlit("pm");
    reveal_strlit("sh");
    reveal_strlit("bash");
    reveal_strlit("zsh");
    reveal_strlit("fish");
    reveal_strlit("ps1");
    reveal_strlit("bat");
    reveal_strlit("cmd");
    reveal_strlit("zig");
    reveal_strlit("nim");
    reveal_strlit("v");
    reveal_strlit("d");
    reveal_strlit("f90");
    reveal_strlit("f95");
    reveal_strlit("jl");
    reveal_strlit("ml");
    reveal_strlit("mli");
    reveal_strlit("fs");
    reveal_strlit("fsx");
    reveal_strlit("dart");
    reveal_strlit("groovy");
    reveal_strlit("vb");
    reveal_strlit("vbs");
    reveal_strlit("asm");
    reveal_strlit("s");
    reveal_strlit("S");
    reveal_strlit("toml");
    reveal_strlit("json");
    reveal_strlit("yaml");
    reveal_strlit("yml");
    reveal_strlit("xml");
    reveal_strlit("ini");
    reveal_strlit("cfg");
    reveal_strlit("conf");
    reveal_strlit("env");
    reveal_strlit("properties");
    reveal_strlit("plist");
    reveal_strlit("editorconfig");
    reveal_strlit("eslintrc");
    reveal_strlit("prettierrc");
    reveal_strlit("babelrc");
    reveal_strlit("nvmrc");
    reveal_strlit("dockerignore");
    reveal_strlit("gitattributes");
    reveal_strlit("md");
    reveal_strlit("markdown");
    reveal_strlit("txt");
    reveal_strlit("rst");
    reveal_strlit("adoc");
    reveal_strlit("org");
    reveal_strlit("tex");
    reveal_strlit("latex");
    reveal_strlit("rdoc");
    reveal_strlit("pod");
    reveal_strlit("css");
    reveal_strlit("scss");
    reveal_strlit("sass");
    reveal_strlit("less");
    reveal_strlit("styl");
    reveal_strlit("stylus");
    reveal_strlit("pcss");
    reveal_strlit("html");
    reveal_strlit("htm");
    reveal_strlit("vue");
    reveal_strlit("svelte");
    reveal_strlit("erb");
    reveal_strlit("ejs");
    reveal_strlit("hbs");
    reveal_strlit("handlebars");
    reveal_strlit("pug");
    reveal_strlit("jade");
    reveal_strlit("slim");
    reveal_strlit("haml");
    reveal_strlit("twig");
    reveal_strlit("jinja");
    reveal_strlit("jinja2");
    reveal_strlit("mustache");
    reveal_strlit("njk");
    reveal_strlit("astro");
    reveal_strlit("exe");
    reveal_strlit("dll");
    reveal_strlit("obj");
    reveal_strlit("o");
    reveal_strlit("so");
    reveal_strlit("dylib");
    reveal_strlit("a");
    reveal_strlit("lib");
    reveal_strlit("pdb");
    reveal_strlit("class");
    reveal_strlit("pyc");
    reveal_strlit("pyo");
    reveal_strlit("wasm");
    reveal_strlit("bin");
    reveal_strlit("dat");
    reveal_strlit("db");
    reveal_strlit("sqlite");
    reveal_strlit("mdb");
    reveal_strlit("png");
    reveal_strlit("jpg");
    reveal_strlit("jpeg");
    reveal_strlit("gif");
    reveal_strlit("ico");
    reveal_strlit("bmp");
    reveal_strlit("tiff");
    reveal_strlit("tif");
    reveal_strlit("webp");
    reveal_strlit("avif");
    reveal_strlit("mp3");
    reveal_strlit("mp4");
    reveal_strlit("wav");
    reveal_strlit("flac");
    reveal_strlit("ogg");
    reveal_strlit("avi");
    reveal_strlit("mkv");
    reveal_strlit("mov");
    reveal_strlit("wmv");
    reveal_strlit("webm");
    reveal_strlit("aac");
    reveal_strlit("m4a");
    reveal_strlit("zip");
    reveal_strlit("tar");
    reveal_strlit("gz");
    reveal_strlit("bz2");
    reveal_strlit("xz");
    reveal_strlit("7z");
    reveal_strlit("rar");
    reveal_strlit("lz");
    reveal_strlit("lzma");
    reveal_strlit("zst");
    reveal_strlit("cab");
    reveal_strlit("dmg");
    reveal_strlit("iso");
    reveal_strlit("jar");
    reveal_strlit("war");
    reveal_strlit("ear");
    reveal_strlit("ttf");
    reveal_strlit("otf");
    reveal_strlit("woff");
    reveal_strlit("woff2");
    reveal_strlit("eot");
    reveal_strlit("pdf");
    reveal_strlit("map");
    reveal_strlit("min");
    reveal_strlit("bundle");
    reveal_strlit("chunk");
    assert("rs"@.len() == 2 && "rs"@[0] == 'r' && "rs"@[1] == 's');
    assert("py"@.len() == 2 && "py"@[0] == 'p' && "py"@[1] == 'y');
    assert("js"@.len() == 2 && "js"@[0] == 'j' && "js"@[1] == 's');
    assert("jsx"@.len() == 3 && "jsx"@[0] == 'j' && "jsx"@[1] == 's' && "jsx"@[2] == 'x');
    assert("ts"@.len() == 2 && "ts"@[0] == 't' && "ts"@[1] == 's');
    assert("tsx"@.len() == 3 && "tsx"@[0] == 't' && "tsx"@[1] == 's' && "tsx"@[2] == 'x');
    assert("c"@.len() == 1 && "c"@[0] == 'c');
    assert("h"@.len() == 1 && "h"@[0] == 'h');
    assert("cpp"@.len() == 3 && "cpp"@[0] == 'c' && "cpp"@[1] == 'p' && "cpp"@[2] == 'p');
    assert("cc"@.len() == 2 && "cc"@[0] == 'c' && "cc"@[1] == 'c');
    assert("cxx"@.len() == 3 && "cxx"@[0] == 'c' && "cxx"@[1] == 'x' && "cxx"@[2] == 'x');
    assert("hpp"@.len() == 3 && "hpp"@[0] == 'h' && "hpp"@[1] == 'p' && "hpp"@[2] == 'p');
    assert("hxx"@.len() == 3 && "hxx"@[0] == 'h' && "hxx"@[1] == 'x' && "hxx"@[2] == 'x');
    assert("hh"@.len() == 2 && "hh"@[0] == 'h' && "hh"@[1] == 'h');
    assert("cs"@.len() == 2 && "cs"@[0] == 'c' && "cs"@[1] == 's');
    assert("java"@.len() == 4 && "java"@[0] == 'j' && "java"@[1] == 'a' && "java"@[2] == 'v' && "java"@[3] == 'a');
    assert("kt"@.len() == 2 && "kt"@[0] == 'k' && "kt"@[1] == 't');
    assert("kts"@.len() == 3 && "kts"@[0] == 'k' && "kts"@[1] == 't' && "kts"@[2] == 's');
    assert("go"@.len() == 2 && "go"@[0] == 'g' && "go"@[1] == 'o');
    assert("rb"@.len() == 2 && "rb"@[0] == 'r' && "rb"@[1] == 'b');
    assert("php"@.len() == 3 && "php"@[0] == 'p' && "php"@[1] == 'h' && "php"@[2] == 'p');
    assert("swift"@.len() == 5 && "swift"@[0] == 's' && "swift"@[1] == 'w' && "swift"@[2] == 'i' && "swift"@[3] == 'f' && "swift"@[4] == 't');
    assert("m"@.len() == 1 && "m"@[0] == 'm');
    assert("mm"@.len() == 2 && "mm"@[0] == 'm' && "mm"@[1] == 'm');
    assert("r"@.len() == 1 && "r"@[0] == 'r');
    assert("R"@.len() == 1 && "R"@[0] == 'R');
    assert("scala"@.len() == 5 && "scala"@[0] == 's' && "scala"@[1] == 'c' && "scala"@[2] == 'a' && "scala"@[3] == 'l' && "scala"@[4] == 'a');
    assert("clj"@.len() == 3 && "clj"@[0] == 'c' && "clj"@[1] == 'l' && "clj"@[2] == 'j');
    assert("cljs"@.len() == 4 && "cljs"@[0] == 'c' && "cljs"@[1] == 'l' && "cljs"@[2] == 'j' && "cljs"@[3] == 's');
    assert("erl"@.len() == 3 && "erl"@[0] == 'e' && "erl"@[1] == 'r' && "erl"@[2] == 'l');
    assert("ex"@.len() == 2 && "ex"@[0] == 'e' && "ex"@[1] == 'x');
    assert("exs"@.len() == 3 && "exs"@[0] == 'e' && "exs"@[1] == 'x' && "exs"@[2] == 's');
    assert("hs"@.len() == 2 && "hs"@[0] == 'h' && "hs"@[1] == 's');
    assert("lua"@.len() == 3 && "lua"@[0] == 'l' && "lua"@[1] == 'u' && "lua"@[2] == 'a');
    assert("pl"@.len() == 2 && "pl"@[0] == 'p' && "pl"@[1] == 'l');
    assert("pm"@.len() == 2 && "pm"@[0] == 'p' && "pm"@[1] == 'm');
    assert("sh"@.len() == 2 && "sh"@[0] == 's' && "sh"@[1] == 'h');
    assert("bash"@.len() == 4 && "bash"@[0] == 'b' && "bash"@[1] == 'a' && "bash"@[2] == 's' && "bash"@[3] == 'h');
    assert("zsh"@.len() == 3 && "zsh"@[0] == 'z' && "zsh"@[1] == 's' && "zsh"@[2] == 'h');
    assert("fish"@.len() == 4 && "fish"@[0] == 'f' && "fish"@[1] == 'i' && "fish"@[2] == 's' && "fish"@[3] == 'h');
    assert("ps1"@.len() == 3 && "ps1"@[0] == 'p' && "ps1"@[1] == 's' && "ps1"@[2] == '1');
    assert("bat"@.len() == 3 && "bat"@[0] == 'b' && "bat"@[1] == 'a' && "bat"@[2] == 't');
    assert("cmd"@.len() == 3 && "cmd"@[0] == 'c' && "cmd"@[1] == 'm' && "cmd"@[2] == 'd');
    assert("zig"@.len() == 3 && "zig"@[0] == 'z' && "zig"@[1] == 'i' && "zig"@[2] == 'g');
    assert("nim"@.len() == 3 && "nim"@[0] == 'n' && "nim"@[1] == 'i' && "nim"@[2] == 'm');
    assert("v"@.len() == 1 && "v"@[0] == 'v');
    assert("d"@.len() == 1 && "d"@[0] == 'd');
    assert("f90"@.len() == 3 && "f90"@[0] == 'f' && "f90"@[1] == '9' && "f90"@[2] == '0');
    assert("f95"@.len() == 3 && "f95"@[0] == 'f' && "f95"@[1] == '9' && "f95"@[2] == '5');
    assert("jl"@.len() == 2 && "jl"@[0] == 'j' && "jl"@[1] == 'l');
    assert("ml"@.len() == 2 && "ml"@[0] == 'm' && "ml"@[1] == 'l');
    assert("mli"@.len() == 3 && "mli"@[0] == 'm' && "mli"@[1] == 'l' && "mli"@[2] == 'i');
    assert("fs"@.len() == 2 && "fs"@[0] == 'f' && "fs"@[1] == 's');
    assert("fsx"@.len() == 3 && "fsx"@[0] == 'f' && "fsx"@[1] == 's' && "fsx"@[2] == 'x');
    assert("dart"@.len() == 4 && "dart"@[0] == 'd' && "dart"@[1] == 'a' && "dart"@[2] == 'r' && "dart"@[3] == 't');
    assert("groovy"@.len() == 6 && "groovy"@[0] == 'g' && "groovy"@[1] == 'r' && "groovy"@[2] == 'o' && "groovy"@[3] == 'o' && "groovy"@[4] == 'v' && "groovy"@[5] == 'y');
    assert("vb"@.len() == 2 && "vb"@[0] == 'v' && "vb"@[1] == 'b');
    assert("vbs"@.len() == 3 && "vbs"@[0] == 'v' && "vbs"@[1] == 'b' && "vbs"@[2] == 's');
    assert("asm"@.len() == 3 && "asm"@[0] == 'a' && "asm"@[1] == 's' && "asm"@[2] == 'm');
    assert("s"@.len() == 1 && "s"@[0] == 's');
    assert("S"@.len() == 1 && "S"@[0] == 'S');
    assert("toml"@.len() == 4 && "toml"@[0] == 't' && "toml"@[1] == 'o' && "toml"@[2] == 'm' && "toml"@[3] == 'l');
    assert("json"@.len() == 4 && "json"@[0] == 'j' && "json"@[1] == 's' && "json"@[2] == 'o' && "json"@[3] == 'n');
    assert("yaml"@.len() == 4 && "yaml"@[0] == 'y' && "yaml"@[1] == 'a' && "yaml"@[2] == 'm' && "yaml"@[3] == 'l');
    assert("yml"@.len() == 3 && "yml"@[0] == 'y' && "yml"@[1] == 'm' && "yml"@[2] == 'l');
    assert("xml"@.len() == 3 && "xml"@[0] == 'x' && "xml"@[1] == 'm' && "xml"@[2] == 'l');
    assert("ini"@.len() == 3 && "ini"@[0] == 'i' && "ini"@[1] == 'n' && "ini"@[2] == 'i');
    assert("cfg"@.len() == 3 && "cfg"@[0] == 'c' && "cfg"@[1] == 'f' && "cfg"@[2] == 'g');
    assert("conf"@.len() == 4 && "conf"@[0] == 'c' && "conf"@[1] == 'o' && "conf"@[2] == 'n' && "conf"@[3] == 'f');
    assert("env"@.len() == 3 && "env"@[0] == 'e' && "env"@[1] == 'n' && "env"@[2] == 'v');
    assert("properties"@.len() == 10 && "properties"@[0] == 'p' && "properties"@[1] == 'r' && "properties"@[2] == 'o' && "properties"@[3] == 'p' && "properties"@[4] == 'e' && "properties"@[5] == 'r' && "properties"@[6] == 't' && "properties"@[7] == 'i' && "properties"@[8] == 'e' && "properties"@[9] == 's');
    assert("plist"@.len() == 5 && "plist"@[0] == 'p' && "plist"@[1] == 'l' && "plist"@[2] == 'i' && "plist"@[3] == 's' && "plist"@[4] == 't');
    assert("editorconfig"@.len() == 12 && "editorconfig"@[0] == 'e' && "editorconfig"@[1] == 'd' && "editorconfig"@[2] == 'i' && "editorconfig"@[3] == 't' && "editorconfig"@[4] == 'o' && "editorconfig"@[5] == 'r' && "editorconfig"@[6] == 'c' && "editorconfig"@[7] == 'o' && "editorconfig"@[8] == 'n' && "editorconfig"@[9] == 'f' && "editorconfig"@[10] == 'i' && "editorconfig"@[11] == 'g');
    assert("eslintrc"@.len() == 8 && "eslintrc"@[0] == 'e' && "eslintrc"@[1] == 's' && "eslintrc"@[2] == 'l' && "eslintrc"@[3] == 'i' && "eslintrc"@[4] == 'n' && "eslintrc"@[5] == 't' && "eslintrc"@[6] == 'r' && "eslintrc"@[7] == 'c');
    assert("prettierrc"@.len() == 10 && "prettierrc"@[0] == 'p' && "prettierrc"@[1] == 'r' && "prettierrc"@[2] == 'e' && "prettierrc"@[3] == 't' && "prettierrc"@[4] == 't' && "prettierrc"@[5] == 'i' && "prettierrc"@[6] == 'e' && "prettierrc"@[7] == 'r' && "prettierrc"@[8] == 'r' && "prettierrc"@[9] == 'c');
    assert("babelrc"@.len() == 7 && "babelrc"@[0] == 'b' && "babelrc"@[1] == 'a' && "babelrc"@[2] == 'b' && "babelrc"@[3] == 'e' && "babelrc"@[4] == 'l' && "babelrc"@[5] == 'r' && "babelrc"@[6] == 'c');
    assert("nvmrc"@.len() == 5 && "nvmrc"@[0] == 'n' && "nvmrc"@[1] == 'v' && "nvmrc"@[2] == 'm' && "nvmrc"@[3] == 'r' && "nvmrc"@[4] == 'c');
    assert("dockerignore"@.len() == 12 && "dockerignore"@[0] == 'd' && "dockerignore"@[1] == 'o' && "dockerignore"@[2] == 'c' && "dockerignore"@[3] == 'k' && "dockerignore"@[4] == 'e' && "dockerignore"@[5] == 'r' && "dockerignore"@[6] == 'i' && "dockerignore"@[7] == 'g' && "dockerignore"@[8] == 'n' && "dockerignore"@[9] == 'o' && "dockerignore"@[10] == 'r' && "dockerignore"@[11] == 'e');
    assert("gitattributes"@.len() == 13 && "gitattributes"@[0] == 'g' && "gitattributes"@[1] == 'i' && "gitattributes"@[2] == 't' && "gitattributes"@[3] == 'a' && "gitattributes"@[4] == 't' && "gitattributes"@[5] == 't' && "gitattributes"@[6] == 'r' && "gitattributes"@[7] == 'i' && "gitattributes"@[8] == 'b' && "gitattributes"@[9] == 'u' && "gitattributes"@[10] == 't' && "gitattributes"@[11] == 'e' && "gitattributes"@[12] == 's');
    assert("md"@.len() == 2 && "md"@[0] == 'm' && "md"@[1] == 'd');
    assert("markdown"@.len() == 8 && "markdown"@[0] == 'm' && "markdown"@[1] == 'a' && "markdown"@[2] == 'r' && "markdown"@[3] == 'k' && "markdown"@[4] == 'd' && "markdown"@[5] == 'o' && "markdown"@[6] == 'w' && "markdown"@[7] == 'n');
    assert("txt"@.len() == 3 && "txt"@[0] == 't' && "txt"@[1] == 'x' && "txt"@[2] == 't');
    assert("rst"@.len() == 3 && "rst"@[0] == 'r' && "rst"@[1] == 's' && "rst"@[2] == 't');
    assert("adoc"@.len() == 4 && "adoc"@[0] == 'a' && "adoc"@[1] == 'd' && "adoc"@[2] == 'o' && "adoc"@[3] == 'c');
    assert("org"@.len() == 3 && "org"@[0] == 'o' && "org"@[1] == 'r' && "org"@[2] == 'g');
    assert("tex"@.len() == 3 && "tex"@[0] == 't' && "tex"@[1] == 'e' && "tex"@[2] == 'x');
    assert("latex"@.len() == 5 && "latex"@[0] == 'l' && "latex"@[1] == 'a' && "latex"@[2] == 't' && "latex"@[3] == 'e' && "latex"@[4] == 'x');
    assert("rdoc"@.len() == 4 && "rdoc"@[0] == 'r' && "rdoc"@[1] == 'd' && "rdoc"@[2] == 'o' && "rdoc"@[3] == 'c');
    assert("pod"@.len() == 3 && "pod"@[0] == 'p' && "pod"@[1] == 'o' && "pod"@[2] == 'd');
    assert("css"@.len() == 3 && "css"@[0] == 'c' && "css"@[1] == 's' && "css"@[2] == 's');
    assert("scss"@.len() == 4 && "scss"@[0] == 's' && "scss"@[1] == 'c' && "scss"@[2] == 's' && "scss"@[3] == 's');
    assert("sass"@.len() == 4 && "sass"@[0] == 's' && "sass"@[1] == 'a' && "sass"@[2] == 's' && "sass"@[3] == 's');
    assert("less"@.len() == 4 && "less"@[0] == 'l' && "less"@[1] == 'e' && "less"@[2] == 's' && "less"@[3] == 's');
    assert("styl"@.len() == 4 && "styl"@[0] == 's' && "styl"@[1] == 't' && "styl"@[2] == 'y' && "styl"@[3] == 'l');
    assert("stylus"@.len() == 6 && "stylus"@[0] == 's' && "stylus"@[1] == 't' && "stylus"@[2] == 'y' && "stylus"@[3] == 'l' && "stylus"@[4] == 'u' && "stylus"@[5] == 's');
    assert("pcss"@.len() == 4 && "pcss"@[0] == 'p' && "pcss"@[1] == 'c' && "pcss"@[2] == 's' && "pcss"@[3] == 's');
    assert("html"@.len() == 4 && "html"@[0] == 'h' && "html"@[1] == 't' && "html"@[2] == 'm' && "html"@[3] == 'l');
    assert("htm"@.len() == 3 && "htm"@[0] == 'h' && "htm"@[1] == 't' && "htm"@[2] == 'm');
    assert("vue"@.len() == 3 && "vue"@[0] == 'v' && "vue"@[1] == 'u' && "vue"@[2] == 'e');
    assert("svelte"@.len() == 6 && "svelte"@[0] == 's' && "svelte"@[1] == 'v' && "svelte"@[2] == 'e' && "svelte"@[3] == 'l' && "svelte"@[4] == 't' && "svelte"@[5] == 'e');
    assert("erb"@.len() == 3 && "erb"@[0] == 'e' && "erb"@[1] == 'r' && "erb"@[2] == 'b');
    assert("ejs"@.len() == 3 && "ejs"@[0] == 'e' && "ejs"@[1] == 'j' && "ejs"@[2] == 's');
    assert("hbs"@.len() == 3 && "hbs"@[0] == 'h' && "hbs"@[1] == 'b' && "hbs"@[2] == 's');
    assert("handlebars"@.len() == 10 && "handlebars"@[0] == 'h' && "handlebars"@[1] == 'a' && "handlebars"@[2] == 'n' && "handlebars"@[3] == 'd' && "handlebars"@[4] == 'l' && "handlebars"@[5] == 'e' && "handlebars"@[6] == 'b' && "handlebars"@[7] == 'a' && "handlebars"@[8] == 'r' && "handlebars"@[9] == 's');
    assert("pug"@.len() == 3 && "pug"@[0] == 'p' && "pug"@[1] == 'u' && "pug"@[2] == 'g');
    assert("jade"@.len() == 4 && "jade"@[0] == 'j' && "jade"@[1] == 'a' && "jade"@[2] == 'd' && "jade"@[3] == 'e');
    assert("slim"@.len() == 4 && "slim"@[0] == 's' && "slim"@[1] == 'l' && "slim"@[2] == 'i' && "slim"@[3] == 'm');
    assert("haml"@.len() == 4 && "haml"@[0] == 'h' && "haml"@[1] == 'a' && "haml"@[2] == 'm' && "haml"@[3] == 'l');
    assert("twig"@.len() == 4 && "twig"@[0] == 't' && "twig"@[1] == 'w' && "twig"@[2] == 'i' && "twig"@[3] == 'g');
    assert("jinja"@.len() == 5 && "jinja"@[0] == 'j' && "jinja"@[1] == 'i' && "jinja"@[2] == 'n' && "jinja"@[3] == 'j' && "jinja"@[4] == 'a');
    assert("jinja2"@.len() == 6 && "jinja2"@[0] == 'j' && "jinja2"@[1] == 'i' && "jinja2"@[2] == 'n' && "jinja2"@[3] == 'j' && "jinja2"@[4] == 'a' && "jinja2"@[5] == '2');
    assert("mustache"@.len() == 8 && "mustache"@[0] == 'm' && "mustache"@[1] == 'u' && "mustache"@[2] == 's' && "mustache"@[3] == 't' && "mustache"@[4] == 'a' && "mustache"@[5] == 'c' && "mustache"@[6] == 'h' && "mustache"@[7] == 'e');
    assert("njk"@.len() == 3 && "njk"@[0] == 'n' && "njk"@[1] == 'j' && "njk"@[2] == 'k');
    assert("astro"@.len() == 5 && "astro"@[0] == 'a' && "astro"@[1] == 's' && "astro"@[2] == 't' && "astro"@[3] == 'r' && "astro"@[4] == 'o');
    assert("exe"@.len() == 3 && "exe"@[0] == 'e' && "exe"@[1] == 'x' && "exe"@[2] == 'e');
    assert("dll"@.len() == 3 && "dll"@[0] == 'd' && "dll"@[1] == 'l' && "dll"@[2] == 'l');
    assert("obj"@.len() == 3 && "obj"@[0] == 'o' && "obj"@[1] == 'b' && "obj"@[2] == 'j');
    assert("o"@.len() == 1 && "o"@[0] == 'o');
    assert("so"@.len() == 2 && "so"@[0] == 's' && "so"@[1] == 'o');
    assert("dylib"@.len() == 5 && "dylib"@[0] == 'd' && "dylib"@[1] == 'y' && "dylib"@[2] == 'l' && "dylib"@[3] == 'i' && "dylib"@[4] == 'b');
    assert("a"@.len() == 1 && "a"@[0] == 'a');
    assert("lib"@.len() == 3 && "lib"@[0] == 'l' && "lib"@[1] == 'i' && "lib"@[2] == 'b');
    assert("pdb"@.len() == 3 && "pdb"@[0] == 'p' && "pdb"@[1] == 'd' && "pdb"@[2] == 'b');
    assert("class"@.len() == 5 && "class"@[0] == 'c' && "class"@[1] == 'l' && "class"@[2] == 'a' && "class"@[3] == 's' && "class"@[4] == 's');
    assert("pyc"@.len() == 3 && "pyc"@[0] == 'p' && "pyc"@[1] == 'y' && "pyc"@[2] == 'c');
    assert("pyo"@.len() == 3 && "pyo"@[0] == 'p' && "pyo"@[1] == 'y' && "pyo"@[2] == 'o');
    assert("wasm"@.len() == 4 && "wasm"@[0] == 'w' && "wasm"@[1] == 'a' && "wasm"@[2] == 's' && "wasm"@[3] == 'm');
    assert("bin"@.len() == 3 && "bin"@[0] == 'b' && "bin"@[1] == 'i' && "bin"@[2] == 'n');
    assert("dat"@.len() == 3 && "dat"@[0] == 'd' && "dat"@[1] == 'a' && "dat"@[2] == 't');
    assert("db"@.len() == 2 && "db"@[0] == 'd' && "db"@[1] == 'b');
    assert("sqlite"@.len() == 6 && "sqlite"@[0] == 's' && "sqlite"@[1] == 'q' && "sqlite"@[2] == 'l' && "sqlite"@[3] == 'i' && "sqlite"@[4] == 't' && "sqlite"@[5] == 'e');
    assert("mdb"@.len() == 3 && "mdb"@[0] == 'm' && "mdb"@[1] == 'd' && "mdb"@[2] == 'b');
    assert("png"@.len() == 3 && "png"@[0] == 'p' && "png"@[1] == 'n' && "png"@[2] == 'g');
    assert("jpg"@.len() == 3 && "jpg"@[0] == 'j' && "jpg"@[1] == 'p' && "jpg"@[2] == 'g');
    assert("jpeg"@.len() == 4 && "jpeg"@[0] == 'j' && "jpeg"@[1] == 'p' && "jpeg"@[2] == 'e' && "jpeg"@[3] == 'g');
    assert("gif"@.len() == 3 && "gif"@[0] == 'g' && "gif"@[1] == 'i' && "gif"@[2] == 'f');
    assert("ico"@.len() == 3 && "ico"@[0] == 'i' && "ico"@[1] == 'c' && "ico"@[2] == 'o');
    assert("bmp"@.len() == 3 && "bmp"@[0] == 'b' && "bmp"@[1] == 'm' && "bmp"@[2] == 'p');
    assert("tiff"@.len() == 4 && "tiff"@[0] == 't' && "tiff"@[1] == 'i' && "tiff"@[2] == 'f' && "tiff"@[3] == 'f');
    assert("tif"@.len() == 3 && "tif"@[0] == 't' && "tif"@[1] == 'i' && "tif"@[2] == 'f');
    assert("webp"@.len() == 4 && "webp"@[0] == 'w' && "webp"@[1] == 'e' && "webp"@[2] == 'b' && "webp"@[3] == 'p');
    assert("avif"@.len() == 4 && "avif"@[0] == 'a' && "avif"@[1] == 'v' && "avif"@[2] == 'i' && "avif"@[3] == 'f');
    assert("mp3"@.len() == 3 && "mp3"@[0] == 'm' && "mp3"@[1] == 'p' && "mp3"@[2] == '3');
    assert("mp4"@.len() == 3 && "mp4"@[0] == 'm' && "mp4"@[1] == 'p' && "mp4"@[2] == '4');
    assert("wav"@.len() == 3 && "wav"@[0] == 'w' && "wav"@[1] == 'a' && "wav"@[2] == 'v');
    assert("flac"@.len() == 4 && "flac"@[0] == 'f' && "flac"@[1] == 'l' && "flac"@[2] == 'a' && "flac"@[3] == 'c');
    assert("ogg"@.len() == 3 && "ogg"@[0] == 'o' && "ogg"@[1] == 'g' && "ogg"@[2] == 'g');
    assert("avi"@.len() == 3 && "avi"@[0] == 'a' && "avi"@[1] == 'v' && "avi"@[2] == 'i');
    assert("mkv"@.len() == 3 && "mkv"@[0] == 'm' && "mkv"@[1] == 'k' && "mkv"@[2] == 'v');
    assert("mov"@.len() == 3 && "mov"@[0] == 'm' && "mov"@[1] == 'o' && "mov"@[2] == 'v');
    assert("wmv"@.len() == 3 && "wmv"@[0] == 'w' && "wmv"@[1] == 'm' && "wmv"@[2] == 'v');
    assert("webm"@.len() == 4 && "webm"@[0] == 'w' && "webm"@[1] == 'e' && "webm"@[2] == 'b' && "webm"@[3] == 'm');
    assert("aac"@.len() == 3 && "aac"@[0] == 'a' && "aac"@[1] == 'a' && "aac"@[2] == 'c');
    assert("m4a"@.len() == 3 && "m4a"@[0] == 'm' && "m4a"@[1] == '4' && "m4a"@[2] == 'a');
    assert("zip"@.len() == 3 && "zip"@[0] == 'z' && "zip"@[1] == 'i' && "zip"@[2] == 'p');
    assert("tar"@.len() == 3 && "tar"@[0] == 't' && "tar"@[1] == 'a' && "tar"@[2] == 'r');
    assert("gz"@.len() == 2 && "gz"@[0] == 'g' && "gz"@[1] == 'z');
    assert("bz2"@.len() == 3 && "bz2"@[0] == 'b' && "bz2"@[1] == 'z' && "bz2"@[2] == '2');
    assert("xz"@.len() == 2 && "xz"@[0] == 'x' && "xz"@[1] == 'z');
    assert("7z"@.len() == 2 && "7z"@[0] == '7' && "7z"@[1] == 'z');
    assert("rar"@.len() == 3 && "rar"@[0] == 'r' && "rar"@[1] == 'a' && "rar"@[2] == 'r');
    assert("lz"@.len() == 2 && "lz"@[0] == 'l' && "lz"@[1] == 'z');
    assert("lzma"@.len() == 4 && "lzma"@[0] == 'l' && "lzma"@[1] == 'z' && "lzma"@[2] == 'm' && "lzma"@[3] == 'a');
    assert("zst"@.len() == 3 && "zst"@[0] == 'z' && "zst"@[1] == 's' && "zst"@[2] == 't');
    assert("cab"@.len() == 3 && "cab"@[0] == 'c' && "cab"@[1] == 'a' && "cab"@[2] == 'b');
    assert("dmg"@.len() == 3 && "dmg"@[0] == 'd' && "dmg"@[1] == 'm' && "dmg"@[2] == 'g');
    assert("iso"@.len() == 3 && "iso"@[0] == 'i' && "iso"@[1] == 's' && "iso"@[2] == 'o');
    assert("jar"@.len() == 3 && "jar"@[0] == 'j' && "jar"@[1] == 'a' && "jar"@[2] == 'r');
    assert("war"@.len() == 3 && "war"@[0] == 'w' && "war"@[1] == 'a' && "war"@[2] == 'r');
    assert("ear"@.len() == 3 && "ear"@[0] == 'e' && "ear"@[1] == 'a' && "ear"@[2] == 'r');
    assert("ttf"@.len() == 3 && "ttf"@[0] == 't' && "ttf"@[1] == 't' && "ttf"@[2] == 'f');
    assert("otf"@.len() == 3 && "otf"@[0] == 'o' && "otf"@[1] == 't' && "otf"@[2] == 'f');
    assert("woff"@.len() == 4 && "woff"@[0] == 'w' && "woff"@[1] == 'o' && "woff"@[2] == 'f' && "woff"@[3] == 'f');
    assert("woff2"@.len() == 5 && "woff2"@[0] == 'w' && "woff2"@[1] == 'o' && "woff2"@[2] == 'f' && "woff2"@[3] == 'f' && "woff2"@[4] == '2');
    assert("eot"@.len() == 3 && "eot"@[0] == 'e' && "eot"@[1] == 'o' && "eot"@[2] == 't');
    assert("pdf"@.len() == 3 && "pdf"@[0] == 'p' && "pdf"@[1] == 'd' && "pdf"@[2] == 'f');
    assert("map"@.len() == 3 && "map"@[0] == 'm' && "map"@[1] == 'a' && "map"@[2] == 'p');
    assert("min"@.len() == 3 && "min"@[0] == 'm' && "min"@[1] == 'i' && "min"@[2] == 'n');
    assert("bundle"@.len() == 6 && "bundle"@[0] == 'b' && "bundle"@[1] == 'u' && "bundle"@[2] == 'n' && "bundle"@[3] == 'd' && "bundle"@[4] == 'l' && "bundle"@[5] == 'e');
    assert("chunk"@.len() == 5 && "chunk"@[0] == 'c' && "chunk"@[1] == 'h' && "chunk"@[2] == 'u' && "chunk"@[3] == 'n' && "chunk"@[4] == 'k');
}

/// Law: an extension outside every table is other, and so are the
/// tables' names in another case (matching is case-sensitive).
pub proof fn lemma_other_extensions()
    ensures
        categorize_spec("RS"@) == ExtensionCategory::Other,
        categorize_spec("Py"@) == ExtensionCategory::Other,
        categorize_spec("JSON"@) == ExtensionCategory::Other,
        categorize_spec("unknown"@) == ExtensionCategory::Other,
        categorize_spec("lock"@) == ExtensionCategory::Other,
        categorize_spec("gitignore"@) == ExtensionCategory::Other,
        categorize_spec(Seq::<char>::empty()) == ExtensionCategory::Other,
{
    reveal_strlit("rs");
    reveal_strlit("py");
    reveal_strlit("js");
    reveal_strlit("jsx");
    reveal_strlit("ts");
    reveal_strlit("tsx");
    reveal_strlit("c");
    reveal_strlit("h");
    reveal_strlit("cpp");
    reveal_strlit("cc");
    reveal_strlit("cxx");
    reveal_strlit("hpp");
    reveal_strlit("hxx");
    reveal_strlit("hh");
    reveal_strlit("cs");
    reveal_strlit("java");
    reveal_strlit("kt");
    reveal_strlit("kts");
    reveal_strlit("go");
    reveal_strlit("rb");
    reveal_strlit("php");
    reveal_strlit("swift");
    reveal_strlit("m");
    reveal_strlit("mm");
    reveal_strlit("r");
    reveal_strlit("R");
    reveal_strlit("scala");
    reveal_strlit("clj");
    reveal_strlit("cljs");
    reveal_strlit("erl");
    reveal_strlit("ex");
    reveal_strlit("exs");
    reveal_strlit("hs");
    reveal_strlit("lua");
    reveal_strlit("pl");
    reveal_strlit("pm");
    reveal_strlit("sh");
    reveal_strlit("bash");
    reveal_strlit("zsh");
    reveal_strlit("fish");
    reveal_strlit("ps1");
    reveal_strlit("bat");
    reveal_strlit("cmd");
    reveal_strlit("zig");
    reveal_strlit("nim");
    reveal_strlit("v");
    reveal_strlit("d");
    reveal_strlit("f90");
    reveal_strlit("f95");
    reveal_strlit("jl");
    reveal_strlit("ml");
    reveal_strlit("mli");
    reveal_strlit("fs");
    reveal_strlit("fsx");
    reveal_strlit("dart");
    reveal_strlit("groovy");
    reveal_strlit("vb");
    reveal_strlit("vbs");
    reveal_strlit("asm");
    reveal_strlit("s");
    reveal_strlit("S");
    reveal_strlit("toml");
    reveal_strlit("json");
    reveal_strlit("yaml");
    reveal_strlit("yml");
    reveal_strlit("xml");
    reveal_strlit("ini");
    reveal_strlit("cfg");
    reveal_strlit("conf");
    reveal_strlit("env");
    reveal_strlit("properties");
    reveal_strlit("plist");
    reveal_strlit("editorconfig");
    reveal_strlit("eslintrc");
    reveal_strlit("prettierrc");
    reveal_strlit("babelrc");
    reveal_strlit("nvmrc");
    reveal_strlit("dockerignore");
    reveal_strlit("gitattributes");
    reveal_strlit("md");
    reveal_strlit("markdown");
    reveal_strlit("txt");
    reveal_strlit("rst");
    reveal_strlit("adoc");
    reveal_strlit("org");
    reveal_strlit("tex");
    reveal_strlit("latex");
    reveal_strlit("rdoc");
    reveal_strlit("pod");
    reveal_strlit("css");
    reveal_strlit("scss");
    reveal_strlit("sass");
    reveal_strlit("less");
    reveal_strlit("styl");
    reveal_strlit("stylus");
    reveal_strlit("pcss");
    reveal_strlit("html");
    reveal_strlit("htm");
    reveal_strlit("vue");
    reveal_strlit("svelte");
    reveal_strlit("erb");
    reveal_strlit("ejs");
    reveal_strlit("hbs");
    reveal_strlit("handlebars");
    reveal_strlit("pug");
    reveal_strlit("jade");
    reveal_strlit("slim");
    reveal_strlit("haml");
    reveal_strlit("twig");
    reveal_strlit("jinja");
    reveal_strlit("jinja2");
    reveal_strlit("mustache");
    reveal_strlit("njk");
    reveal_strlit("astro");
    reveal_strlit("exe");
    reveal_strlit("dll");
    reveal_strlit("obj");
    reveal_strlit("o");
    reveal_strlit("so");
    reveal_strlit("dylib");
    reveal_strlit("a");
    reveal_strlit("lib");
    reveal_strlit("pdb");
    reveal_strlit("class");
    reveal_strlit("pyc");
    reveal_strlit("pyo");
    reveal_strlit("wasm");
    reveal_strlit("bin");
    reveal_strlit("dat");
    reveal_strlit("db");
    reveal_strlit("sqlite");
    reveal_strlit("mdb");
    reveal_strlit("png");
    reveal_strlit("jpg");
    reveal_strlit("jpeg");
    reveal_strlit("gif");
    reveal_strlit("ico");
    reveal_strlit("bmp");
    reveal_strlit("tiff");
    reveal_strlit("tif");
    reveal_strlit("webp");
    reveal_strlit("avif");
    reveal_strlit("mp3");
    reveal_strlit("mp4");
    reveal_strlit("wav");
    reveal_strlit("flac");
    reveal_strlit("ogg");
    reveal_strlit("avi");
    reveal_strlit("mkv");
    reveal_strlit("mov");
    reveal_strlit("wmv");
    reveal_strlit("webm");
    reveal_strlit("aac");
    reveal_strlit("m4a");
    reveal_strlit("zip");
    reveal_strlit("tar");
    reveal_strlit("gz");
    reveal_strlit("bz2");
    reveal_strlit("xz");
    reveal_strlit("7z");
    reveal_strlit("rar");
    reveal_strlit("lz");
    reveal_strlit("lzma");
    reveal_strlit("zst");
    reveal_strlit("cab");
    reveal_strlit("dmg");
    reveal_strlit("iso");
    reveal_strlit("jar");
    reveal_strlit("war");
    reveal_strlit("ear");
    reveal_strlit("ttf");
    reveal_strlit("otf");
    reveal_strlit("woff");
    reveal_strlit("woff2");
    reveal_strlit("eot");
    reveal_strlit("pdf");
    reveal_strlit("map");
    reveal_strlit("min");
    reveal_strlit("bundle");
    reveal_strlit("chunk");
    reveal_strlit("RS");
    reveal_strlit("Py");
    reveal_strlit("JSON");
    reveal_strlit("unknown");
    reveal_strlit("lock");
    reveal_strlit("gitignore");
    assert("rs"@.len() == 2 && "rs"@[0] == 'r' && "rs"@[1] == 's');
    assert("py"@.len() == 2 && "py"@[0] == 'p' && "py"@[1] == 'y');
    assert("js"@.len() == 2 && "js"@[0] == 'j' && "js"@[1] == 's');
    assert("jsx"@.len() == 3 && "jsx"@[0] == 'j' && "jsx"@[1] == 's' && "jsx"@[2] == 'x');
    assert("ts"@.len() == 2 && "ts"@[0] == 't' && "ts"@[1] == 's');
    assert("tsx"@.len() == 3 && "tsx"@[0] == 't' && "tsx"@[1] == 's' && "tsx"@[2] == 'x');
    assert("c"@.len() == 1 && "c"@[0] == 'c');
    assert("h"@.len() == 1 && "h"@[0] == 'h');
    assert("cpp"@.len() == 3 && "cpp"@[0] == 'c' && "cpp"@[1] == 'p' && "cpp"@[2] == 'p');
    assert("cc"@.len() == 2 && "cc"@[0] == 'c' && "cc"@[1] == 'c');
    assert("cxx"@.len() == 3 && "cxx"@[0] == 'c' && "cxx"@[1] == 'x' && "cxx"@[2] == 'x');
    assert("hpp"@.len() == 3 && "hpp"@[0] == 'h' && "hpp"@[1] == 'p' && "hpp"@[2] == 'p');
    assert("hxx"@.len() == 3 && "hxx"@[0] == 'h' && "hxx"@[1] == 'x' && "hxx"@[2] == 'x');
    assert("hh"@.len() == 2 && "hh"@[0] == 'h' && "hh"@[1] == 'h');
    assert("cs"@.len() == 2 && "cs"@[0] == 'c' && "cs"@[1] == 's');
    assert("java"@.len() == 4 && "java"@[0] == 'j' && "java"@[1] == 'a' && "java"@[2] == 'v' && "java"@[3] == 'a');
    assert("kt"@.len() == 2 && "kt"@[0] == 'k' && "kt"@[1] == 't');
    assert("kts"@.len() == 3 && "kts"@[0] == 'k' && "kts"@[1] == 't' && "kts"@[2] == 's');
    assert("go"@.len() == 2 && "go"@[0] == 'g' && "go"@[1] == 'o');
    assert("rb"@.len() == 2 && "rb"@[0] == 'r' && "rb"@[1] == 'b');
    assert("php"@.len() == 3 && "php"@[0] == 'p' && "php"@[1] == 'h' && "php"@[2] == 'p');
    assert("swift"@.len() == 5 && "swift"@[0] == 's' && "swift"@[1] == 'w' && "swift"@[2] == 'i' && "swift"@[3] == 'f' && "swift"@[4] == 't');
    assert("m"@.len() == 1 && "m"@[0] == 'm');
    assert("mm"@.len() == 2 && "mm"@[0] == 'm' && "mm"@[1] == 'm');
    assert("r"@.len() == 1 && "r"@[0] == 'r');
    assert("R"@.len() == 1 && "R"@[0] == 'R');
    assert("scala"@.len() == 5 && "scala"@[0] == 's' && "scala"@[1] == 'c' && "scala"@[2] == 'a' && "scala"@[3] == 'l' && "scala"@[4] == 'a');
    assert("clj"@.len() == 3 && "clj"@[0] == 'c' && "clj"@[1] == 'l' && "clj"@[2] == 'j');
    assert("cljs"@.len() == 4 && "cljs"@[0] == 'c' && "cljs"@[1] == 'l' && "cljs"@[2] == 'j' && "cljs"@[3] == 's');
    assert("erl"@.len() == 3 && "erl"@[0] == 'e' && "erl"@[1] == 'r' && "erl"@[2] == 'l');
    assert("ex"@.len() == 2 && "ex"@[0] == 'e' && "ex"@[1] == 'x');
    assert("exs"@.len() == 3 && "exs"@[0] == 'e' && "exs"@[1] == 'x' && "exs"@[2] == 's');
    assert("hs"@.len() == 2 && "hs"@[0] == 'h' && "hs"@[1] == 's');
    assert("lua"@.len() == 3 && "lua"@[0] == 'l' && "lua"@[1] == 'u' && "lua"@[2] == 'a');
    assert("pl"@.len() == 2 && "pl"@[0] == 'p' && "pl"@[1] == 'l');
    assert("pm"@.len() == 2 && "pm"@[0] == 'p' && "pm"@[1] == 'm');
    assert("sh"@.len() == 2 && "sh"@[0] == 's' && "sh"@[1] == 'h');
    assert("bash"@.len() == 4 && "bash"@[0] == 'b' && "bash"@[1] == 'a' && "bash"@[2] == 's' && "bash"@[3] == 'h');
    assert("zsh"@.len() == 3 && "zsh"@[0] == 'z' && "zsh"@[1] == 's' && "zsh"@[2] == 'h');
    assert("fish"@.len() == 4 && "fish"@[0] == 'f' && "fish"@[1] == 'i' && "fish"@[2] == 's' && "fish"@[3] == 'h');
    assert("ps1"@.len() == 3 && "ps1"@[0] == 'p' && "ps1"@[1] == 's' && "ps1"@[2] == '1');
    assert("bat"@.len() == 3 && "bat"@[0] == 'b' && "bat"@[1] == 'a' && "bat"@[2] == 't');
    assert("cmd"@.len() == 3 && "cmd"@[0] == 'c' && "cmd"@[1] == 'm' && "cmd"@[2] == 'd');
    assert("zig"@.len() == 3 && "zig"@[0] == 'z' && "zig"@[1] == 'i' && "zig"@[2] == 'g');
    assert("nim"@.len() == 3 && "nim"@[0] == 'n' && "nim"@[1] == 'i' && "nim"@[2] == 'm');
    assert("v"@.len() == 1 && "v"@[0] == 'v');
    assert("d"@.len() == 1 && "d"@[0] == 'd');
    assert("f90"@.len() == 3 && "f90"@[0] == 'f' && "f90"@[1] == '9' && "f90"@[2] == '0');
    assert("f95"@.len() == 3 && "f95"@[0] == 'f' && "f95"@[1] == '9' && "f95"@[2] == '5');
    assert("jl"@.len() == 2 && "jl"@[0] == 'j' && "jl"@[1] == 'l');
    assert("ml"@.len() == 2 && "ml"@[0] == 'm' && "ml"@[1] == 'l');
    assert("mli"@.len() == 3 && "mli"@[0] == 'm' && "mli"@[1] == 'l' && "mli"@[2] == 'i');
    assert("fs"@.len() == 2 && "fs"@[0] == 'f' && "fs"@[1] == 's');
    assert("fsx"@.len() == 3 && "fsx"@[0] == 'f' && "fsx"@[1] == 's' && "fsx"@[2] == 'x');
    assert("dart"@.len() == 4 && "dart"@[0] == 'd' && "dart"@[1] == 'a' && "dart"@[2] == 'r' && "dart"@[3] == 't');
    assert("groovy"@.len() == 6 && "groovy"@[0] == 'g' && "groovy"@[1] == 'r' && "groovy"@[2] == 'o' && "groovy"@[3] == 'o' && "groovy"@[4] == 'v' && "groovy"@[5] == 'y');
    assert("vb"@.len() == 2 && "vb"@[0] == 'v' && "vb"@[1] == 'b');
    assert("vbs"@.len() == 3 && "vbs"@[0] == 'v' && "vbs"@[1] == 'b' && "vbs"@[2] == 's');
    assert("asm"@.len() == 3 && "asm"@[0] == 'a' && "asm"@[1] == 's' && "asm"@[2] == 'm');
    assert("s"@.len() == 1 && "s"@[0] == 's');
    assert("S"@.len() == 1 && "S"@[0] == 'S');
    assert("toml"@.len() == 4 && "toml"@[0] == 't' && "toml"@[1] == 'o' && "toml"@[2] == 'm' && "toml"@[3] == 'l');
    assert("json"@.len() == 4 && "json"@[0] == 'j' && "json"@[1] == 's' && "json"@[2] == 'o' && "json"@[3] == 'n');
    assert("yaml"@.len() == 4 && "yaml"@[0] == 'y' && "yaml"@[1] == 'a' && "yaml"@[2] == 'm' && "yaml"@[3] == 'l');
    assert("yml"@.len() == 3 && "yml"@[0] == 'y' && "yml"@[1] == 'm' && "yml"@[2] == 'l');
    assert("xml"@.len() == 3 && "xml"@[0] == 'x' && "xml"@[1] == 'm' && "xml"@[2] == 'l');
    assert("ini"@.len() == 3 && "ini"@[0] == 'i' && "ini"@[1] == 'n' && "ini"@[2] == 'i');
    assert("cfg"@.len() == 3 && "cfg"@[0] == 'c' && "cfg"@[1] == 'f' && "cfg"@[2] == 'g');
    assert("conf"@.len() == 4 && "conf"@[0] == 'c' && "conf"@[1] == 'o' && "conf"@[2] == 'n' && "conf"@[3] == 'f');
    assert("env"@.len() == 3 && "env"@[0] == 'e' && "env"@[1] == 'n' && "env"@[2] == 'v');
    assert("properties"@.len() == 10 && "properties"@[0] == 'p' && "properties"@[1] == 'r' && "properties"@[2] == 'o' && "properties"@[3] == 'p' && "properties"@[4] == 'e' && "properties"@[5] == 'r' && "properties"@[6] == 't' && "properties"@[7] == 'i' && "properties"@[8] == 'e' && "properties"@[9] == 's');
    assert("plist"@.len() == 5 && "plist"@[0] == 'p' && "plist"@[1] == 'l' && "plist"@[2] == 'i' && "plist"@[3] == 's' && "plist"@[4] == 't');
    assert("editorconfig"@.len() == 12 && "editorconfig"@[0] == 'e' && "editorconfig"@[1] == 'd' && "editorconfig"@[2] == 'i' && "editorconfig"@[3] == 't' && "editorconfig"@[4] == 'o' && "editorconfig"@[5] == 'r' && "editorconfig"@[6] == 'c' && "editorconfig"@[7] == 'o' && "editorconfig"@[8] == 'n' && "editorconfig"@[9] == 'f' && "editorconfig"@[10] == 'i' && "editorconfig"@[11] == 'g');
    assert("eslintrc"@.len() == 8 && "eslintrc"@[0] == 'e' && "eslintrc"@[1] == 's' && "eslintrc"@[2] == 'l' && "eslintrc"@[3] == 'i' && "eslintrc"@[4] == 'n' && "eslintrc"@[5] == 't' && "eslintrc"@[6] == 'r' && "eslintrc"@[7] == 'c');
    assert("prettierrc"@.len() == 10 && "prettierrc"@[0] == 'p' && "prettierrc"@[1] == 'r' && "prettierrc"@[2] == 'e' && "prettierrc"@[3] == 't' && "prettierrc"@[4] == 't' && "prettierrc"@[5] == 'i' && "prettierrc"@[6] == 'e' && "prettierrc"@[7] == 'r' && "prettierrc"@[8] == 'r' && "prettierrc"@[9] == 'c');
    assert("babelrc"@.len() == 7 && "babelrc"@[0] == 'b' && "babelrc"@[1] == 'a' && "babelrc"@[2] == 'b' && "babelrc"@[3] == 'e' && "babelrc"@[4] == 'l' && "babelrc"@[5] == 'r' && "babelrc"@[6] == 'c');
    assert("nvmrc"@.len() == 5 && "nvmrc"@[0] == 'n' && "nvmrc"@[1] == 'v' && "nvmrc"@[2] == 'm' && "nvmrc"@[3] == 'r' && "nvmrc"@[4] == 'c');
    assert("dockerignore"@.len() == 12 && "dockerignore"@[0] == 'd' && "dockerignore"@[1] == 'o' && "dockerignore"@[2] == 'c' && "dockerignore"@[3] == 'k' && "dockerignore"@[4] == 'e' && "dockerignore"@[5] == 'r' && "dockerignore"@[6] == 'i' && "dockerignore"@[7] == 'g' && "dockerignore"@[8] == 'n' && "dockerignore"@[9] == 'o' && "dockerignore"@[10] == 'r' && "dockerignore"@[11] == 'e');
    assert("gitattributes"@.len() == 13 && "gitattributes"@[0] == 'g' && "gitattributes"@[1] == 'i' && "gitattributes"@[2] == 't' && "gitattributes"@[3] == 'a' && "gitattributes"@[4] == 't' && "gitattributes"@[5] == 't' && "gitattributes"@[6] == 'r' && "gitattributes"@[7] == 'i' && "gitattributes"@[8] == 'b' && "gitattributes"@[9] == 'u' && "gitattributes"@[10] == 't' && "gitattributes"@[11] == 'e' && "gitattributes"@[12] == 's');
    assert("md"@.len() == 2 && "md"@[0] == 'm' && "md"@[1] == 'd');
    assert("markdown"@.len() == 8 && "markdown"@[0] == 'm' && "markdown"@[1] == 'a' && "markdown"@[2] == 'r' && "markdown"@[3] == 'k' && "markdown"@[4] == 'd' && "markdown"@[5] == 'o' && "markdown"@[6] == 'w' && "markdown"@[7] == 'n');
    assert("txt"@.len() == 3 && "txt"@[0] == 't' && "txt"@[1] == 'x' && "txt"@[2] == 't');
    assert("rst"@.len() == 3 && "rst"@[0] == 'r' && "rst"@[1] == 's' && "rst"@[2] == 't');
    assert("adoc"@.len() == 4 && "adoc"@[0] == 'a' && "adoc"@[1] == 'd' && "adoc"@[2] == 'o' && "adoc"@[3] == 'c');
    assert("org"@.len() == 3 && "org"@[0] == 'o' && "org"@[1] == 'r' && "org"@[2] == 'g');
    assert("tex"@.len() == 3 && "tex"@[0] == 't' && "tex"@[1] == 'e' && "tex"@[2] == 'x');
    assert("latex"@.len() == 5 && "latex"@[0] == 'l' && "latex"@[1] == 'a' && "latex"@[2] == 't' && "latex"@[3] == 'e' && "latex"@[4] == 'x');
    assert("rdoc"@.len() == 4 && "rdoc"@[0] == 'r' && "rdoc"@[1] == 'd' && "rdoc"@[2] == 'o' && "rdoc"@[3] == 'c');
    assert("pod"@.len() == 3 && "pod"@[0] == 'p' && "pod"@[1] == 'o' && "pod"@[2] == 'd');
    assert("css"@.len() == 3 && "css"@[0] == 'c' && "css"@[1] == 's' && "css"@[2] == 's');
    assert("scss"@.len() == 4 && "scss"@[0] == 's' && "scss"@[1] == 'c' && "scss"@[2] == 's' && "scss"@[3] == 's');
    assert("sass"@.len() == 4 && "sass"@[0] == 's' && "sass"@[1] == 'a' && "sass"@[2] == 's' && "sass"@[3] == 's');
    assert("less"@.len() == 4 && "less"@[0] == 'l' && "less"@[1] == 'e' && "less"@[2] == 's' && "less"@[3] == 's');
    assert("styl"@.len() == 4 && "styl"@[0] == 's' && "styl"@[1] == 't' && "styl"@[2] == 'y' && "styl"@[3] == 'l');
    assert("stylus"@.len() == 6 && "stylus"@[0] == 's' && "stylus"@[1] == 't' && "stylus"@[2] == 'y' && "stylus"@[3] == 'l' && "stylus"@[4] == 'u' && "stylus"@[5] == 's');
    assert("pcss"@.len() == 4 && "pcss"@[0] == 'p' && "pcss"@[1] == 'c' && "pcss"@[2] == 's' && "pcss"@[3] == 's');
    assert("html"@.len() == 4 && "html"@[0] == 'h' && "html"@[1] == 't' && "html"@[2] == 'm' && "html"@[3] == 'l');
    assert("htm"@.len() == 3 && "htm"@[0] == 'h' && "htm"@[1] == 't' && "htm"@[2] == 'm');
    assert("vue"@.len() == 3 && "vue"@[0] == 'v' && "vue"@[1] == 'u' && "vue"@[2] == 'e');
    assert("svelte"@.len() == 6 && "svelte"@[0] == 's' && "svelte"@[1] == 'v' && "svelte"@[2] == 'e' && "svelte"@[3] == 'l' && "svelte"@[4] == 't' && "svelte"@[5] == 'e');
    assert("erb"@.len() == 3 && "erb"@[0] == 'e' && "erb"@[1] == 'r' && "erb"@[2] == 'b');
    assert("ejs"@.len() == 3 && "ejs"@[0] == 'e' && "ejs"@[1] == 'j' && "ejs"@[2] == 's');
    assert("hbs"@.len() == 3 && "hbs"@[0] == 'h' && "hbs"@[1] == 'b' && "hbs"@[2] == 's');
    assert("handlebars"@.len() == 10 && "handlebars"@[0] == 'h' && "handlebars"@[1] == 'a' && "handlebars"@[2] == 'n' && "handlebars"@[3] == 'd' && "handlebars"@[4] == 'l' && "handlebars"@[5] == 'e' && "handlebars"@[6] == 'b' && "handlebars"@[7] == 'a' && "handlebars"@[8] == 'r' && "handlebars"@[9] == 's');
    assert("pug"@.len() == 3 && "pug"@[0] == 'p' && "pug"@[1] == 'u' && "pug"@[2] == 'g');
    assert("jade"@.len() == 4 && "jade"@[0] == 'j' && "jade"@[1] == 'a' && "jade"@[2] == 'd' && "jade"@[3] == 'e');
    assert("slim"@.len() == 4 && "slim"@[0] == 's' && "slim"@[1] == 'l' && "slim"@[2] == 'i' && "slim"@[3] == 'm');
    assert("haml"@.len() == 4 && "haml"@[0] == 'h' && "haml"@[1] == 'a' && "haml"@[2] == 'm' && "haml"@[3] == 'l');
    assert("twig"@.len() == 4 && "twig"@[0] == 't' && "twig"@[1] == 'w' && "twig"@[2] == 'i' && "twig"@[3] == 'g');
    assert("jinja"@.len() == 5 && "jinja"@[0] == 'j' && "jinja"@[1] == 'i' && "jinja"@[2] == 'n' && "jinja"@[3] == 'j' && "jinja"@[4] == 'a');
    assert("jinja2"@.len() == 6 && "jinja2"@[0] == 'j' && "jinja2"@[1] == 'i' && "jinja2"@[2] == 'n' && "jinja2"@[3] == 'j' && "jinja2"@[4] == 'a' && "jinja2"@[5] == '2');
    assert("mustache"@.len() == 8 && "mustache"@[0] == 'm' && "mustache"@[1] == 'u' && "mustache"@[2] == 's' && "mustache"@[3] == 't' && "mustache"@[4] == 'a' && "mustache"@[5] == 'c' && "mustache"@[6] == 'h' && "mustache"@[7] == 'e');
    assert("njk"@.len() == 3 && "njk"@[0] == 'n' && "njk"@[1] == 'j' && "njk"@[2] == 'k');
    assert("astro"@.len() == 5 && "astro"@[0] == 'a' && "astro"@[1] == 's' && "astro"@[2] == 't' && "astro"@[3] == 'r' && "astro"@[4] == 'o');
    assert("exe"@.len() == 3 && "exe"@[0] == 'e' && "exe"@[1] == 'x' && "exe"@[2] == 'e');
    assert("dll"@.len() == 3 && "dll"@[0] == 'd' && "dll"@[1] == 'l' && "dll"@[2] == 'l');
    assert("obj"@.len() == 3 && "obj"@[0] == 'o' && "obj"@[1] == 'b' && "obj"@[2] == 'j');
    assert("o"@.len() == 1 && "o"@[0] == 'o');
    assert("so"@.len() == 2 && "so"@[0] == 's' && "so"@[1] == 'o');
    assert("dylib"@.len() == 5 && "dylib"@[0] == 'd' && "dylib"@[1] == 'y' && "dylib"@[2] == 'l' && "dylib"@[3] == 'i' && "dylib"@[4] == 'b');
    assert("a"@.len() == 1 && "a"@[0] == 'a');
    assert("lib"@.len() == 3 && "lib"@[0] == 'l' && "lib"@[1] == 'i' && "lib"@[2] == 'b');
    assert("pdb"@.len() == 3 && "pdb"@[0] == 'p' && "pdb"@[1] == 'd' && "pdb"@[2] == 'b');
    assert("class"@.len() == 5 && "class"@[0] == 'c' && "class"@[1] == 'l' && "class"@[2] == 'a' && "class"@[3] == 's' && "class"@[4] == 's');
    assert("pyc"@.len() == 3 && "pyc"@[0] == 'p' && "pyc"@[1] == 'y' && "pyc"@[2] == 'c');
    assert("pyo"@.len() == 3 && "pyo"@[0] == 'p' && "pyo"@[1] == 'y' && "pyo"@[2] == 'o');
    assert("wasm"@.len() == 4 && "wasm"@[0] == 'w' && "wasm"@[1] == 'a' && "wasm"@[2] == 's' && "wasm"@[3] == 'm');
    assert("bin"@.len() == 3 && "bin"@[0] == 'b' && "bin"@[1] == 'i' && "bin"@[2] == 'n');
    assert("dat"@.len() == 3 && "dat"@[0] == 'd' && "dat"@[1] == 'a' && "dat"@[2] == 't');
    assert("db"@.len() == 2 && "db"@[0] == 'd' && "db"@[1] == 'b');
    assert("sqlite"@.len() == 6 && "sqlite"@[0] == 's' && "sqlite"@[1] == 'q' && "sqlite"@[2] == 'l' && "sqlite"@[3] == 'i' && "sqlite"@[4] == 't' && "sqlite"@[5] == 'e');
    assert("mdb"@.len() == 3 && "mdb"@[0] == 'm' && "mdb"@[1] == 'd' && "mdb"@[2] == 'b');
    assert("png"@.len() == 3 && "png"@[0] == 'p' && "png"@[1] == 'n' && "png"@[2] == 'g');
    assert("jpg"@.len() == 3 && "jpg"@[0] == 'j' && "jpg"@[1] == 'p' && "jpg"@[2] == 'g');
    assert("jpeg"@.len() == 4 && "jpeg"@[0] == 'j' && "jpeg"@[1] == 'p' && "jpeg"@[2] == 'e' && "jpeg"@[3] == 'g');
    assert("gif"@.len() == 3 && "gif"@[0] == 'g' && "gif"@[1] == 'i' && "gif"@[2] == 'f');
    assert("ico"@.len() == 3 && "ico"@[0] == 'i' && "ico"@[1] == 'c' && "ico"@[2] == 'o');
    assert("bmp"@.len() == 3 && "bmp"@[0] == 'b' && "bmp"@[1] == 'm' && "bmp"@[2] == 'p');
    assert("tiff"@.len() == 4 && "tiff"@[0] == 't' && "tiff"@[1] == 'i' && "tiff"@[2] == 'f' && "tiff"@[3] == 'f');
    assert("tif"@.len() == 3 && "tif"@[0] == 't' && "tif"@[1] == 'i' && "tif"@[2] == 'f');
    assert("webp"@.len() == 4 && "webp"@[0] == 'w' && "webp"@[1] == 'e' && "webp"@[2] == 'b' && "webp"@[3] == 'p');
    assert("avif"@.len() == 4 && "avif"@[0] == 'a' && "avif"@[1] == 'v' && "avif"@[2] == 'i' && "avif"@[3] == 'f');
    assert("mp3"@.len() == 3 && "mp3"@[0] == 'm' && "mp3"@[1] == 'p' && "mp3"@[2] == '3');
    assert("mp4"@.len() == 3 && "mp4"@[0] == 'm' && "mp4"@[1] == 'p' && "mp4"@[2] == '4');
    assert("wav"@.len() == 3 && "wav"@[0] == 'w' && "wav"@[1] == 'a' && "wav"@[2] == 'v');
    assert("flac"@.len() == 4 && "flac"@[0] == 'f' && "flac"@[1] == 'l' && "flac"@[2] == 'a' && "flac"@[3] == 'c');
    assert("ogg"@.len() == 3 && "ogg"@[0] == 'o' && "ogg"@[1] == 'g' && "ogg"@[2] == 'g');
    assert("avi"@.len() == 3 && "avi"@[0] == 'a' && "avi"@[1] == 'v' && "avi"@[2] == 'i');
    assert("mkv"@.len() == 3 && "mkv"@[0] == 'm' && "mkv"@[1] == 'k' && "mkv"@[2] == 'v');
    assert("mov"@.len() == 3 && "mov"@[0] == 'm' && "mov"@[1] == 'o' && "mov"@[2] == 'v');
    assert("wmv"@.len() == 3 && "wmv"@[0] == 'w' && "wmv"@[1] == 'm' && "wmv"@[2] == 'v');
    assert("webm"@.len() == 4 && "webm"@[0] == 'w' && "webm"@[1] == 'e' && "webm"@[2] == 'b' && "webm"@[3] == 'm');
    assert("aac"@.len() == 3 && "aac"@[0] == 'a' && "aac"@[1] == 'a' && "aac"@[2] == 'c');
    assert("m4a"@.len() == 3 && "m4a"@[0] == 'm' && "m4a"@[1] == '4' && "m4a"@[2] == 'a');
    assert("zip"@.len() == 3 && "zip"@[0] == 'z' && "zip"@[1] == 'i' && "zip"@[2] == 'p');
    assert("tar"@.len() == 3 && "tar"@[0] == 't' && "tar"@[1] == 'a' && "tar"@[2] == 'r');
    assert("gz"@.len() == 2 && "gz"@[0] == 'g' && "gz"@[1] == 'z');
    assert("bz2"@.len() == 3 && "bz2"@[0] == 'b' && "bz2"@[1] == 'z' && "bz2"@[2] == '2');
    assert("xz"@.len() == 2 && "xz"@[0] == 'x' && "xz"@[1] == 'z');
    assert("7z"@.len() == 2 && "7z"@[0] == '7' && "7z"@[1] == 'z');
    assert("rar"@.len() == 3 && "rar"@[0] == 'r' && "rar"@[1] == 'a' && "rar"@[2] == 'r');
    assert("lz"@.len() == 2 && "lz"@[0] == 'l' && "lz"@[1] == 'z');
    assert("lzma"@.len() == 4 && "lzma"@[0] == 'l' && "lzma"@[1] == 'z' && "lzma"@[2] == 'm' && "lzma"@[3] == 'a');
    assert("zst"@.len() == 3 && "zst"@[0] == 'z' && "zst"@[1] == 's' && "zst"@[2] == 't');
    assert("cab"@.len() == 3 && "cab"@[0] == 'c' && "cab"@[1] == 'a' && "cab"@[2] == 'b');
    assert("dmg"@.len() == 3 && "dmg"@[0] == 'd' && "dmg"@[1] == 'm' && "dmg"@[2] == 'g');
    assert("iso"@.len() == 3 && "iso"@[0] == 'i' && "iso"@[1] == 's' && "iso"@[2] == 'o');
    assert("jar"@.len() == 3 && "jar"@[0] == 'j' && "jar"@[1] == 'a' && "jar"@[2] == 'r');
    assert("war"@.len() == 3 && "war"@[0] == 'w' && "war"@[1] == 'a' && "war"@[2] == 'r');
    assert("ear"@.len() == 3 && "ear"@[0] == 'e' && "ear"@[1] == 'a' && "ear"@[2] == 'r');
    assert("ttf"@.len() == 3 && "ttf"@[0] == 't' && "ttf"@[1] == 't' && "ttf"@[2] == 'f');
    assert("otf"@.len() == 3 && "otf"@[0] == 'o' && "otf"@[1] == 't' && "otf"@[2] == 'f');
    assert("woff"@.len() == 4 && "woff"@[0] == 'w' && "woff"@[1] == 'o' && "woff"@[2] == 'f' && "woff"@[3] == 'f');
    assert("woff2"@.len() == 5 && "woff2"@[0] == 'w' && "woff2"@[1] == 'o' && "woff2"@[2] == 'f' && "woff2"@[3] == 'f' && "woff2"@[4] == '2');
    assert("eot"@.len() == 3 && "eot"@[0] == 'e' && "eot"@[1] == 'o' && "eot"@[2] == 't');
    assert("pdf"@.len() == 3 && "pdf"@[0] == 'p' && "pdf"@[1] == 'd' && "pdf"@[2] == 'f');
    assert("map"@.len() == 3 && "map"@[0] == 'm' && "map"@[1] == 'a' && "map"@[2] == 'p');
    assert("min"@.len() == 3 && "min"@[0] == 'm' && "min"@[1] == 'i' && "min"@[2] == 'n');
    assert("bundle"@.len() == 6 && "bundle"@[0] == 'b' && "bundle"@[1] == 'u' && "bundle"@[2] == 'n' && "bundle"@[3] == 'd' && "bundle"@[4] == 'l' && "bundle"@[5] == 'e');
    assert("chunk"@.len() == 5 && "chunk"@[0] == 'c' && "chunk"@[1] == 'h' && "chunk"@[2] == 'u' && "chunk"@[3] == 'n' && "chunk"@[4] == 'k');
    assert("RS"@.len() == 2 && "RS"@[0] == 'R' && "RS"@[1] == 'S');
    assert("Py"@.len() == 2 && "Py"@[0] == 'P' && "Py"@[1] == 'y');
    assert("JSON"@.len() == 4 && "JSON"@[0] == 'J' && "JSON"@[1] == 'S' && "JSON"@[2] == 'O' && "JSON"@[3] == 'N');
    assert("unknown"@.len() == 7 && "unknown"@[0] == 'u' && "unknown"@[1] == 'n' && "unknown"@[2] == 'k' && "unknown"@[3] == 'n' && "unknown"@[4] == 'o' && "unknown"@[5] == 'w' && "unknown"@[6] == 'n');
    assert("lock"@.len() == 4 && "lock"@[0] == 'l' && "lock"@[1] == 'o' && "lock"@[2] == 'c' && "lock"@[3] == 'k');
    assert("gitignore"@.len() == 9 && "gitignore"@[0] == 'g' && "gitignore"@[1] == 'i' && "gitignore"@[2] == 't' && "gitignore"@[3] == 'i' && "gitignore"@[4] == 'g' && "gitignore"@[5] == 'n' && "gitignore"@[6] == 'o' && "gitignore"@[7] == 'r' && "gitignore"@[8] == 'e');
}

/// Law: a category starts enabled exactly when it is source-like (code,
/// config, docs, styles, markup or other): binaries, media, archives,
/// fonts and generated files start filtered out; and every category that
/// starts enabled is listed before every one that does not.
pub proof fn lemma_default_enabled_categories(c: ExtensionCategory, d: ExtensionCategory)
    ensures
        default_enabled_spec(c) <==> (c == ExtensionCategory::Code || c == ExtensionCategory::Config || c
            == ExtensionCategory::Docs || c == ExtensionCategory::Styles || c == ExtensionCategory::Markup || c
            == ExtensionCategory::Other),
        !default_enabled_spec(ExtensionCategory::Binary) && !default_enabled_spec(ExtensionCategory::Media)
            && !default_enabled_spec(ExtensionCategory::Archive) && !default_enabled_spec(ExtensionCategory::Font)
            && !default_enabled_spec(ExtensionCategory::Generated),
        default_enabled_spec(c) && !default_enabled_spec(d) ==> sort_order_spec(c) < sort_order_spec(d),
        c != d ==> sort_order_spec(c) != sort_order_spec(d),
{
}

/// Law: each category is labelled by its own name and listed at its fixed
/// place: code, config, docs, styles, markup, other, then binaries, media,
/// archives, fonts and generated files.
pub proof fn lemma_category_labels_and_order()
    ensures
        label_spec(ExtensionCategory::Code) == "Code"@,
        label_spec(ExtensionCategory::Config) == "Config"@,
        label_spec(ExtensionCategory::Docs) == "Docs"@,
        label_spec(ExtensionCategory::Styles) == "Styles"@,
        label_spec(ExtensionCategory::Markup) == "Markup"@,
        label_spec(ExtensionCategory::Binary) == "Binary"@,
        label_spec(ExtensionCategory::Media) == "Media"@,
        label_spec(ExtensionCategory::Archive) == "Archive"@,
        label_spec(ExtensionCategory::Font) == "Font"@,
        label_spec(ExtensionCategory::Generated) == "Generated"@,
        label_spec(ExtensionCategory::Other) == "Other"@,
        sort_order_spec(ExtensionCategory::Code) == 0,
        sort_order_spec(ExtensionCategory::Config) == 1,
        sort_order_spec(ExtensionCategory::Docs) == 2,
        sort_order_spec(ExtensionCategory::Styles) == 3,
        sort_order_spec(ExtensionCategory::Markup) == 4,
        sort_order_spec(ExtensionCategory::Binary) == 6,
        sort_order_spec(ExtensionCategory::Media) == 7,
        sort_order_spec(ExtensionCategory::Archive) == 8,
        sort_order_spec(ExtensionCategory::Font) == 9,
        sort_order_spec(ExtensionCategory::Generated) == 10,
        sort_order_spec(ExtensionCategory::Other) == 5,
{
}

/// `n / d` rounded to the nearest integer, ties to even.
pub open spec fn round_half_even(n: int, d: int) -> int {
    let q = n / d;
    let r = n % d;
    if 2 * r > d || (2 * r == d && q % 2 == 1) {
        q + 1
    } else {
        q
    }
}

/// `2^k`.
pub open spec fn pow2_of(k: nat) -> nat
    decreases k,
{
    if k == 0 {
        1
    } else {
        2 * pow2_of((k - 1) as nat)
    }
}

/// Spacing of double-precision values around `n`, searched from `2^k`:
/// the smallest power of two (at least `2^k`) that brings `n` below `2^53`.
pub open spec fn f64_spacing_from(n: nat, k: nat) -> nat
    decreases 64 - k,
{
    if k >= 64 || n / pow2_of(k) < 0x20000000000000 {
        pow2_of(k)
    } else {
        f64_spacing_from(n, k + 1)
    }
}

/// The double-precision value nearest to `n` (ties to even), i.e. the
/// value of `n as f64`.
pub open spec fn nearest_f64(n: nat) -> nat {
    let u = f64_spacing_from(n, 0);
    (round_half_even(n as int, u as int) * u) as nat
}

/// `v / d` printed with one decimal place, the last digit rounded to nearest
/// with ties to even.
pub open spec fn one_decimal(v: nat, d: nat) -> Seq<char> {
    let t = round_half_even((v * 10) as int, d as int) as nat;
    decimal(t / 10) + seq!['.', digit_char((t % 10) as int)]
}

/// Human-readable byte count: whole bytes below 1 KiB, otherwise KB, MB or
/// GB (binary multiples) with one decimal place.
pub open spec fn format_bytes_spec(bytes: u64) -> Seq<char> {
    if bytes < 1024 {
        decimal(bytes as nat) + " B"@
    } else if bytes < 1048576 {
        one_decimal(bytes as nat, 1024) + " KB"@
    } else if bytes < 1073741824 {
        one_decimal(bytes as nat, 1048576) + " MB"@
    } else {
        one_decimal(nearest_f64(bytes as nat), 1073741824) + " GB"@
    }
}

proof fn lemma_pow2_of_grows(k: nat)
    ensures
        pow2_of(k) >= 1,
        pow2_of(k + 1) == 2 * pow2_of(k),
    decreases k,
{
    if k > 0 {
        lemma_pow2_of_grows((k - 1) as nat);
    }
}

proof fn lemma_pow2_of_64()
    ensures
        pow2_of(64) == 0x10000000000000000,
{
    reveal_with_fuel(pow2_of, 65);
}

proof fn lemma_spacing_bound(n: nat, k: nat)
    requires
        k <= 64,
    ensures
        pow2_of(k) <= f64_spacing_from(n, k) <= pow2_of(64),
    decreases 64 - k,
{
    lemma_pow2_of_grows(k);
    if k < 64 && n / pow2_of(k) >= 0x20000000000000 {
        lemma_spacing_bound(n, k + 1);
    } else if k < 64 {
        lemma_pow2_monotone(k, 64);
    }
}

proof fn lemma_pow2_monotone(a: nat, b: nat)
    requires
        a <= b,
    ensures
        pow2_of(a) <= pow2_of(b),
    decreases b - a,
{
    if a < b {
        lemma_pow2_of_grows((b - 1) as nat);
        lemma_pow2_monotone(a, (b - 1) as nat);
    }
}

fn round_half_even_u128(n: u128, d: u128) -> (r: u128)
    requires
        d > 0,
        n < 0x100000000000000000000,
    ensures
        r == round_half_even(n as int, d as int),
        r <= n / d + 1,
{
    let q = n / d;
    let rem = n % d;
    if (rem > d / 2 || (rem == d / 2 && d % 2 == 0)) && (rem > d / 2 || q % 2 == 1) {
        assert(2 * rem > d || (2 * rem == d && q % 2 == 1));
        q + 1
    } else {
        q
    }
}

/// `n as f64`, as an exact integer.
fn nearest_f64_exec(n: u64) -> (r: u128)
    ensures
        r == nearest_f64(n as nat),
        r <= 0x10000000000000000,
{
    let mut k: u32 = 0;
    let mut unit: u128 = 1;
    proof {
        lemma_pow2_of_64();
        lemma_pow2_of_grows(0);
    }
    while k < 64 && (n as u128) / unit >= 0x20000000000000
        invariant
            k <= 64,
            unit == pow2_of(k as nat),
            unit >= 1,
            k > 0 ==> n as int >= pow2_of((k - 1) as nat) * 0x20000000000000,
            f64_spacing_from(n as nat, 0) == f64_spacing_from(n as nat, k as nat),
            pow2_of(64) == 0x10000000000000000,
        decreases 64 - k,
    {
        proof {
            lemma_pow2_of_grows(k as nat);
            lemma_pow2_monotone((k + 1) as nat, 64);
            assert(n as int >= unit * 0x20000000000000) by (nonlinear_arith)
                requires
                    (n as int) / (unit as int) >= 0x20000000000000,
                    unit >= 1,
            ;
        }
        unit = unit * 2;
        k = k + 1;
    }
    proof {
        lemma_pow2_of_grows(k as nat);
        lemma_spacing_bound(n as nat, 0);
    }
    let q = round_half_even_u128(n as u128, unit);
    if k == 0 {
        assert(q * unit <= 0x10000000000000000);
    } else {
        proof {
            lemma_pow2_of_grows((k - 1) as nat);
            assert(pow2_of(12) == 4096) by {
                reveal_with_fuel(pow2_of, 13);
            }
            if k >= 13 {
                lemma_pow2_monotone(12, (k - 1) as nat);
                assert(n as int >= 4096 * 0x20000000000000) by (nonlinear_arith)
                    requires
                        n as int >= pow2_of((k - 1) as nat) * 0x20000000000000,
                        pow2_of((k - 1) as nat) >= 4096,
                ;
            }
            assert(k <= 12);
            lemma_pow2_monotone((k - 1) as nat, 11);
            assert(pow2_of(11) == 2048) by {
                reveal_with_fuel(pow2_of, 12);
            }
            assert(unit <= 4096);
            if unit == 4096 {
                assert(n as int >= 2048 * 0x20000000000000);
                assert(false);
            }
            assert(k < 64);
            assert((n as u128) / unit < 0x20000000000000);
        }
        assert(q * unit <= 0x10000000000000000) by (nonlinear_arith)
            requires
                q <= (n as u128) / unit + 1,
                (n as u128) / unit < 0x20000000000000,
                unit <= 2048,
        ;
    }
    q * unit
}

fn push_one_decimal(out: &mut Vec<char>, v: u128, d: u128)
    requires
        d > 0,
        v <= 0x10000000000000000,
    ensures
        final(out)@ == old(out)@ + one_decimal(v as nat, d as nat),
{
    let t = round_half_even_u128(v * 10, d);
    push_decimal(out, t / 10);
    out.push('.');
    out.push(digit(t % 10));
}

/// Human-readable byte count: `"512 B"`, `"1.5 KB"`, `"12.0 MB"`, `"2.0 GB"`;
/// binary multiples, one decimal place rounded to nearest (ties to even).
pub fn format_bytes(bytes: u64) -> (r: String)
    ensures
        r@ == format_bytes_spec(bytes),
{
    let mut out: Vec<char> = Vec::new();
    if bytes < 1024 {
        push_decimal(&mut out, bytes as u128);
        push_str_chars(&mut out, " B");
    } else if bytes < 1048576 {
        push_one_decimal(&mut out, bytes as u128, 1024);
        push_str_chars(&mut out, " KB");
    } else if bytes < 1073741824 {
        push_one_decimal(&mut out, bytes as u128, 1048576);
        push_str_chars(&mut out, " MB");
    } else {
        let v = nearest_f64_exec(bytes);
        push_one_decimal(&mut out, v, 1073741824);
        push_str_chars(&mut out, " GB");
    }
    string_from_chars(&out)
}


/// `base` joined with the relative component `child` by `/`.
pub open spec fn join_path(base: Seq<char>, child: Seq<char>) -> Seq<char> {
    if base.len() == 0 {
        child
    } else if base.last() == '/' {
        base + child
    } else {
        base + seq!['/'] + child
    }
}

fn push_joined(base: &mut Vec<char>, child: &str)
    ensures
        final(base)@ == join_path(old(base)@, child@),
{
    if base.len() > 0 && base[base.len() - 1] != '/' {
        base.push('/');
    }
    push_str_chars(base, child);
}

/// Location of a project's settings file: `<root>/.outrider/project.json`.
pub open spec fn project_settings_path_spec(project_root: Seq<char>) -> Seq<char> {
    join_path(join_path(project_root, ".outrider"@), "project.json"@)
}

/// Location of a project's settings file: `<root>/.outrider/project.json`.
pub fn project_settings_path(project_root: &str) -> (r: String)
    ensures
        r@ == project_settings_path_spec(project_root@),
{
    let mut p = chars_of(project_root);
    push_joined(&mut p, ".outrider");
    push_joined(&mut p, "project.json");
    string_from_chars(&p)
}

/// Whether something exists at `path` on disk (`std::path::Path::exists`).
/// The answer depends on the file system at the time of the call, so
/// nothing is promised about it.
#[verifier::external_body]
fn path_exists(path: &String) -> bool {
    std::path::Path::new(path.as_str()).exists()
}

impl ProjectSettings {
    /// Whether the project at `project_root` has a saved settings file. The
    /// path checked is `project_settings_path(project_root)`; the answer is
    /// read from the file system.
    pub fn exists_on_disk(project_root: &str) -> bool {
        let path = project_settings_path(project_root);
        path_exists(&path)
    }
}

} // verus!
