use vstd::prelude::*;

verus! {

/// The fixed name of the debug log file.
pub open spec fn log_file_name() -> Seq<char> {
    "websql-debug.log"@
}

/// The home component chosen from the two platform-specific home variables:
/// the profile variable wins, then the home variable, then the current
/// directory.
pub open spec fn home_component(profile: Option<Seq<char>>, home: Option<Seq<char>>) -> Seq<char> {
    match profile {
        Option::Some(p) => p,
        Option::None => match home {
            Option::Some(h) => h,
            Option::None => "."@,
        },
    }
}

/// The full log path: home component, a separator, the fixed file name.
pub open spec fn log_path(profile: Option<Seq<char>>, home: Option<Seq<char>>) -> Seq<char> {
    home_component(profile, home) + "/"@ + log_file_name()
}

/// Derives the log file path from the values of the two home-directory
/// variables, deterministically: with neither set, the file lives in the
/// current directory.
pub fn resolve_log_path(profile: Option<String>, home: Option<String>) -> (r: String)
    ensures
        r@ == log_path(profile.deep_view(), home.deep_view()),
{
    let ghost p = profile.deep_view();
    let ghost h = home.deep_view();
    let base: String = match profile {
        Option::Some(prof) => prof,
        Option::None => match home {
            Option::Some(hm) => hm,
            Option::None => String::from_str("."),
        },
    };
    let mut path = base;
    path.append("/");
    path.append("websql-debug.log");
    proof {
        assert(path@ =~= log_path(p, h));
    }
    path
}

} // verus!
