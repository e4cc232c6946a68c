use vstd::prelude::*;

verus! {

/// The well-known global binary directories searched for manager binaries
/// on a Unix host, in search order.
pub open spec fn known_global_search_locations() -> Seq<Seq<char>> {
    seq![
        "/usr/bin"@,
        "/usr/local/bin"@,
        "/bin"@,
        "/home/bin"@,
        "/sbin"@,
        "/usr/sbin"@,
        "/usr/local/sbin"@,
        "/home/sbin"@,
        "/opt"@,
        "/opt/bin"@,
        "/opt/sbin"@,
        "/opt/homebrew/bin"@,
    ]
}

/// The resolved user home directory: the `HOME` variable when set, else
/// `USERPROFILE`, else nothing.
pub open spec fn spec_user_home(
    home_var: Option<Seq<char>>,
    userprofile_var: Option<Seq<char>>,
) -> Option<Seq<char>> {
    match home_var {
        Some(h) => Some(h),
        None => userprofile_var,
    }
}

/// Resolves the user home directory from the two environment variables.
pub fn get_user_home(home_var: &Option<String>, userprofile_var: &Option<String>) -> (r: Option<
    String,
>)
    ensures
        r.deep_view() == spec_user_home(home_var.deep_view(), userprofile_var.deep_view()),
{
    match home_var {
        Some(h) => Some(h.clone()),
        None => match userprofile_var {
            Some(u) => Some(u.clone()),
            None => None,
        },
    }
}

/// The Unix list of well-known global binary directories.
pub fn get_know_global_search_locations() -> (r: Vec<String>)
    ensures
        r.deep_view() == known_global_search_locations(),
{
    let mut r: Vec<String> = Vec::new();
    r.push(String::from_str("/usr/bin"));
    r.push(String::from_str("/usr/local/bin"));
    r.push(String::from_str("/bin"));
    r.push(String::from_str("/home/bin"));
    r.push(String::from_str("/sbin"));
    r.push(String::from_str("/usr/sbin"));
    r.push(String::from_str("/usr/local/sbin"));
    r.push(String::from_str("/home/sbin"));
    r.push(String::from_str("/opt"));
    r.push(String::from_str("/opt/bin"));
    r.push(String::from_str("/opt/sbin"));
    r.push(String::from_str("/opt/homebrew/bin"));
    proof {
        assert(r.deep_view() =~= known_global_search_locations());
    }
    r
}

} // verus!
