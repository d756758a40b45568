//! Resolution of the download directory from the platform's folders: the
//! platform download folder when one is resolvable, else a `Downloads`
//! folder under the home directory, with the application's folder name
//! appended either way.

use vstd::prelude::*;

verus! {

/// The directory all downloads go to, given the platform's download
/// folder and home folder as far as they are resolvable.
pub open spec fn download_dir_of(
    platform_dl: Option<Seq<char>>,
    home: Option<Seq<char>>,
) -> Seq<char> {
    match platform_dl {
        Some(d) => d + "/DVZOLL"@,
        None => match home {
            Some(h) => h + "/Downloads/DVZOLL"@,
            None => "Downloads/DVZOLL"@,
        },
    }
}

/// Append the application folder to the resolved base directory. When
/// neither folder is resolvable the relative fallback is returned, so
/// the function is total where the environment is not.
pub fn resolve_download_dir(download_dir: &Option<String>, home_dir: &Option<String>) -> (r:
    String)
    ensures
        r@ == download_dir_of(
            match download_dir {
                Some(d) => Some(d@),
                None => None,
            },
            match home_dir {
                Some(h) => Some(h@),
                None => None,
            },
        ),
{
    match download_dir {
        Some(d) => d.clone().concat("/DVZOLL"),
        None => match home_dir {
            Some(h) => h.clone().concat("/Downloads/DVZOLL"),
            None => String::from_str("Downloads/DVZOLL"),
        },
    }
}

} // verus!
