//! The output interpreter: best-effort scanning of a tool's captured
//! stdout/stderr to recover an output file path, a display title and, on
//! failure, a condensed error line. Any change in the external tools' log
//! format invalidates these heuristics; they are stated exactly, not
//! claimed robust.

use vstd::prelude::*;
use crate::request::{DownloadResult, Tool};
use crate::text::{
    char_rfind, contains_pat, contains_str, contains_str_ci, find_pat, find_str,
    is_match_at, lemma_char_rfind_props, lemma_find_from_props,
    lines_of, lower_seq, rfind_char, split_lines, starts_with, starts_with_str,
    strip_prefix_reps, strip_prefix_reps_str, trim_of, trim_str,
};

verus! {

/// The view of an optional owned string.
pub open spec fn opt_view(o: Option<String>) -> Option<Seq<char>> {
    match o {
        Some(s) => Some(s@),
        None => None,
    }
}

/// The path a trimmed line yields through its destination marker: the
/// text after the first marker, trimmed, when non-empty.
pub open spec fn dest_path_of(t: Seq<char>) -> Option<Seq<char>> {
    match find_pat(t, "Destination:"@) {
        Some(pos) => {
            let p = trim_of(t.subrange(pos + "Destination:"@.len(), t.len() as int));
            if p.len() > 0 {
                Some(p)
            } else {
                None
            }
        },
        None => None,
    }
}

/// The path a trimmed already-downloaded line yields: the text between
/// the download tag and the phrase, trimmed, when non-empty.
pub open spec fn already_path_of(t: Seq<char>) -> Option<Seq<char>> {
    let after = trim_of(strip_prefix_reps(t, "[download]"@));
    match find_pat(after, " has already been downloaded"@) {
        Some(pos) => {
            let p = trim_of(after.subrange(0, pos));
            if p.len() > 0 {
                Some(p)
            } else {
                None
            }
        },
        None => None,
    }
}

/// What one stdout line contributes: a destination path (the marker line,
/// post-processing passes included), an already-present path, or nothing.
pub open spec fn line_path(line: Seq<char>) -> Option<Seq<char>> {
    let t = trim_of(line);
    if contains_pat(t, "Destination:"@) {
        dest_path_of(t)
    } else if starts_with(t, "[download]"@) && contains_pat(
        t,
        "has already been downloaded"@,
    ) {
        already_path_of(t)
    } else {
        None
    }
}

/// The path of the last line that yields one: a later line supersedes an
/// earlier one, so a post-processing pass wins over the raw download.
pub open spec fn last_path(lines: Seq<Seq<char>>) -> Option<Seq<char>>
    decreases lines.len()
{
    if lines.len() == 0 {
        None
    } else {
        match line_path(lines.last()) {
            Some(p) => Some(p),
            None => last_path(lines.drop_last()),
        }
    }
}

/// The path recovered from a whole stdout capture.
pub open spec fn parsed_path(stdout: Seq<char>) -> Option<Seq<char>> {
    last_path(lines_of(stdout))
}

/// What one line contributes, by characters.
fn line_path_str(line: &str) -> (r: Option<String>)
    ensures
        opt_view(r) == line_path(line@),
{
    let t = trim_str(line);
    let dest = "Destination:";
    proof {
        lemma_find_from_props(t@, dest@, 0);
        match find_pat(t@, dest@) {
            Some(j) => {
                assert(is_match_at(t@, dest@, j));
                assert(contains_pat(t@, dest@));
            },
            None => {
                if contains_pat(t@, dest@) {
                    let j = choose|j: int| is_match_at(t@, dest@, j);
                    assert(is_match_at(t@, dest@, j));
                }
            },
        }
    }
    if let Some(pos) = find_str(t, dest) {
        let mlen = dest.unicode_len();
        let tlen = t.unicode_len();
        let after = t.substring_char(pos + mlen, tlen);
        let p = trim_str(after);
        if p.unicode_len() > 0 {
            Some(p.to_owned())
        } else {
            None
        }
    } else {
        let tag = "[download]";
        let phrase = "has already been downloaded";
        proof {
            reveal_strlit("[download]");
        }
        if starts_with_str(t, tag) && contains_str(t, phrase) {
            let stripped = strip_prefix_reps_str(t, tag);
            let after = trim_str(stripped);
            let sp_phrase = " has already been downloaded";
            if let Some(pos) = find_str(after, sp_phrase) {
                proof {
                    lemma_find_from_props(after@, sp_phrase@, 0);
                    assert(is_match_at(after@, sp_phrase@, pos as int));
                }
                let head = after.substring_char(0, pos);
                let p = trim_str(head);
                if p.unicode_len() > 0 {
                    Some(p.to_owned())
                } else {
                    None
                }
            } else {
                None
            }
        } else {
            None
        }
    }
}

/// Recover the output file path from the extractor's stdout: the last
/// destination or already-downloaded line wins; `None` when no line
/// yields a path.
pub fn parse_output_file(stdout: &str) -> (r: Option<String>)
    ensures
        opt_view(r) == parsed_path(stdout@),
{
    let lines = split_lines(stdout);
    let ghost lmodel = lines@.map_values(|l: String| l@);
    let mut res: Option<String> = None;
    proof {
        assert(lmodel.take(0) =~= Seq::<Seq<char>>::empty());
    }
    let mut i: usize = 0;
    while i < lines.len()
        invariant
            0 <= i <= lines.len(),
            lmodel == lines@.map_values(|l: String| l@),
            lmodel.len() == lines@.len(),
            lmodel == lines_of(stdout@),
            opt_view(res) == last_path(lmodel.take(i as int)),
        decreases lines.len() - i,
    {
        let lp = line_path_str(lines[i].as_str());
        proof {
            assert(lmodel.take(i + 1).drop_last() =~= lmodel.take(i as int));
            assert(lmodel.take(i + 1).last() == lmodel[i as int]);
            assert(lines@[i as int]@ == lmodel[i as int]);
        }
        if lp.is_some() {
            res = lp;
        }
        i = i + 1;
    }
    proof {
        assert(lmodel.take(lines@.len() as int) =~= lmodel);
    }
    res
}

/// The file name of a path: everything after the last slash.
pub open spec fn file_name_of(p: Seq<char>) -> Seq<char> {
    match char_rfind(p, '/') {
        Some(i) => p.subrange(i + 1, p.len() as int),
        None => p,
    }
}

/// The stem of a file name: the part before the last dot, unless that dot
/// opens the name.
pub open spec fn stem_of(name: Seq<char>) -> Seq<char> {
    match char_rfind(name, '.') {
        Some(i) => if i > 0 {
            name.subrange(0, i)
        } else {
            name
        },
        None => name,
    }
}

/// The display title a recovered path yields; an empty file name falls
/// back to the placeholder.
pub open spec fn title_of(path: Seq<char>) -> Seq<char> {
    let name = file_name_of(path);
    if name.len() == 0 {
        "Media"@
    } else {
        stem_of(name)
    }
}

/// The display title of an optional recovered path.
pub open spec fn title_from(path: Option<Seq<char>>) -> Seq<char> {
    match path {
        Some(p) => title_of(p),
        None => "Media"@,
    }
}

/// Derive a display title from the recovered file path: its file name
/// stem, or the fixed placeholder when no path was recovered.
pub fn parse_title(stdout: &str, file_path: &Option<String>) -> (r: String)
    ensures
        r@ == title_from(opt_view(*file_path)),
{
    let _ = stdout;
    match file_path {
        Some(p) => {
            let plen = p.as_str().unicode_len();
            let name: &str = match rfind_char(p.as_str(), '/') {
                Some(i) => {
                    proof {
                        lemma_char_rfind_props(p@, '/');
                    }
                    p.as_str().substring_char(i + 1, plen)
                },
                None => p.as_str(),
            };
            if name.unicode_len() == 0 {
                String::from_str("Media")
            } else {
                match rfind_char(name, '.') {
                    Some(i) => {
                        proof {
                            lemma_char_rfind_props(name@, '.');
                        }
                        if i > 0 {
                            name.substring_char(0, i).to_owned()
                        } else {
                            name.to_owned()
                        }
                    },
                    None => name.to_owned(),
                }
            }
        },
        None => String::from_str("Media"),
    }
}

/// The path finally reported: the recovered path when it is present on
/// disk, else the output directory.
pub open spec fn resolved_path(
    parsed: Option<Seq<char>>,
    path_exists: bool,
    dir: Seq<char>,
) -> Seq<char> {
    match parsed {
        Some(p) => if path_exists {
            p
        } else {
            dir
        },
        None => dir,
    }
}

/// Settle the reported path: `path_exists` says whether the recovered
/// path (if any) is present on disk, as only the caller can check.
pub fn resolve_output_path(parsed: &Option<String>, path_exists: bool, output_dir: &str) -> (r:
    String)
    ensures
        r@ == resolved_path(opt_view(*parsed), path_exists, output_dir@),
{
    match parsed {
        Some(p) => if path_exists {
            p.clone()
        } else {
            String::from_str(output_dir)
        },
        None => String::from_str(output_dir),
    }
}

/// Index of the first line in which `pat` occurs, searching from `i`.
pub open spec fn find_line_with(lines: Seq<Seq<char>>, pat: Seq<char>, i: int) -> Option<
    int,
>
    decreases lines.len() - i when 0 <= i
{
    if i < 0 || i >= lines.len() {
        None
    } else if contains_pat(lines[i], pat) {
        Some(i)
    } else {
        find_line_with(lines, pat, i + 1)
    }
}

pub proof fn lemma_find_line_with_props(lines: Seq<Seq<char>>, pat: Seq<char>, i: int)
    requires
        0 <= i,
    ensures
        match find_line_with(lines, pat, i) {
            Some(j) => i <= j < lines.len() && contains_pat(lines[j], pat) && (forall|k: int|
                i <= k < j ==> !contains_pat(lines[k], pat)),
            None => forall|k: int| i <= k < lines.len() ==> !contains_pat(lines[k], pat),
        },
    decreases lines.len() - i,
{
    if i < lines.len() && !contains_pat(lines[i], pat) {
        lemma_find_line_with_props(lines, pat, i + 1);
    }
}

/// Index of the first line in which `pat` occurs when the line is taken
/// in ASCII lower case, searching from `i`.
pub open spec fn find_line_with_ci(lines: Seq<Seq<char>>, pat: Seq<char>, i: int) -> Option<
    int,
>
    decreases lines.len() - i when 0 <= i
{
    if i < 0 || i >= lines.len() {
        None
    } else if contains_pat(lower_seq(lines[i]), pat) {
        Some(i)
    } else {
        find_line_with_ci(lines, pat, i + 1)
    }
}

pub proof fn lemma_find_line_with_ci_props(lines: Seq<Seq<char>>, pat: Seq<char>, i: int)
    requires
        0 <= i,
    ensures
        match find_line_with_ci(lines, pat, i) {
            Some(j) => i <= j < lines.len() && contains_pat(lower_seq(lines[j]), pat) && (
            forall|k: int| i <= k < j ==> !contains_pat(lower_seq(lines[k]), pat)),
            None => forall|k: int|
                i <= k < lines.len() ==> !contains_pat(lower_seq(lines[k]), pat),
        },
    decreases lines.len() - i,
{
    if i < lines.len() && !contains_pat(lower_seq(lines[i]), pat) {
        lemma_find_line_with_ci_props(lines, pat, i + 1);
    }
}

/// The condensed error of a failed extractor run: the first stderr line
/// carrying the error marker, its leading marker repetitions and outer
/// whitespace removed; else stderr bounded at 200 characters with an
/// ellipsis; else a fixed unknown-error text when stderr is empty.
pub open spec fn extractor_error_of(stderr: Seq<char>) -> Seq<char> {
    let lines = lines_of(stderr);
    match find_line_with(lines, "ERROR:"@, 0) {
        Some(i) => trim_of(strip_prefix_reps(lines[i], "ERROR:"@)),
        None => if stderr.len() > 200 {
            stderr.subrange(0, 200) + "…"@
        } else if stderr.len() == 0 {
            "Unknown error occurred"@
        } else {
            stderr
        },
    }
}

/// Condense a failed extractor run's stderr, by characters.
pub fn clean_extractor_error(stderr: &str) -> (r: String)
    ensures
        r@ == extractor_error_of(stderr@),
{
    let lines = split_lines(stderr);
    let ghost lmodel = lines@.map_values(|l: String| l@);
    let mut i: usize = 0;
    while i < lines.len()
        invariant
            0 <= i <= lines.len(),
            lmodel == lines@.map_values(|l: String| l@),
            lmodel.len() == lines@.len(),
            lmodel == lines_of(stderr@),
            forall|k: int| 0 <= k < i ==> !contains_pat(lmodel[k], "ERROR:"@),
        decreases lines.len() - i,
    {
        proof {
            assert(lmodel[i as int] == lines@[i as int]@);
        }
        if contains_str(lines[i].as_str(), "ERROR:") {
            proof {
                reveal_strlit("ERROR:");
                lemma_find_line_with_props(lmodel, "ERROR:"@, 0);
                match find_line_with(lmodel, "ERROR:"@, 0) {
                    Some(j) => {
                        if j < i {
                            assert(!contains_pat(lmodel[j], "ERROR:"@));
                        } else if j > i {
                            assert(!contains_pat(lmodel[i as int], "ERROR:"@));
                        }
                    },
                    None => {
                        assert(!contains_pat(lmodel[i as int], "ERROR:"@));
                    },
                }
            }
            let stripped = strip_prefix_reps_str(lines[i].as_str(), "ERROR:");
            return trim_str(stripped).to_owned();
        }
        i = i + 1;
    }
    proof {
        lemma_find_line_with_props(lmodel, "ERROR:"@, 0);
        if let Some(j) = find_line_with(lmodel, "ERROR:"@, 0) {
            assert(!contains_pat(lmodel[j], "ERROR:"@));
        }
    }
    let slen = stderr.unicode_len();
    if slen > 200 {
        String::from_str(stderr.substring_char(0, 200)).concat("…")
    } else if slen == 0 {
        String::from_str("Unknown error occurred")
    } else {
        String::from_str(stderr)
    }
}

/// The condensed error of a failed music-downloader run: the first stderr
/// line that mentions an error in any letter case, trimmed; else the
/// whole of stdout when stderr is empty, else the whole of stderr.
pub open spec fn music_error_of(stdout: Seq<char>, stderr: Seq<char>) -> Seq<char> {
    let lines = lines_of(stderr);
    match find_line_with_ci(lines, "error"@, 0) {
        Some(i) => trim_of(lines[i]),
        None => if stderr.len() == 0 {
            stdout
        } else {
            stderr
        },
    }
}

/// Condense a failed music-downloader run's output, by characters.
pub fn clean_music_error(stdout: &str, stderr: &str) -> (r: String)
    ensures
        r@ == music_error_of(stdout@, stderr@),
{
    let lines = split_lines(stderr);
    let ghost lmodel = lines@.map_values(|l: String| l@);
    let mut i: usize = 0;
    while i < lines.len()
        invariant
            0 <= i <= lines.len(),
            lmodel == lines@.map_values(|l: String| l@),
            lmodel.len() == lines@.len(),
            lmodel == lines_of(stderr@),
            forall|k: int| 0 <= k < i ==> !contains_pat(lower_seq(lmodel[k]), "error"@),
        decreases lines.len() - i,
    {
        proof {
            assert(lmodel[i as int] == lines@[i as int]@);
        }
        if contains_str_ci(lines[i].as_str(), "error") {
            proof {
                lemma_find_line_with_ci_props(lmodel, "error"@, 0);
                match find_line_with_ci(lmodel, "error"@, 0) {
                    Some(j) => {
                        if j < i {
                            assert(!contains_pat(lower_seq(lmodel[j]), "error"@));
                        } else if j > i {
                            assert(!contains_pat(lower_seq(lmodel[i as int]), "error"@));
                        }
                    },
                    None => {
                        assert(!contains_pat(lower_seq(lmodel[i as int]), "error"@));
                    },
                }
            }
            return trim_str(lines[i].as_str()).to_owned();
        }
        i = i + 1;
    }
    proof {
        lemma_find_line_with_ci_props(lmodel, "error"@, 0);
        if let Some(j) = find_line_with_ci(lmodel, "error"@, 0) {
            assert(!contains_pat(lower_seq(lmodel[j]), "error"@));
        }
    }
    if stderr.unicode_len() == 0 {
        String::from_str(stdout)
    } else {
        String::from_str(stderr)
    }
}

/// The success message around a recovered title.
pub open spec fn success_message(title: Seq<char>) -> Seq<char> {
    "Downloaded \""@ + title + "\" successfully"@
}

/// Turn a finished extractor run into the result record. `path_exists`
/// says whether the recovered path (as `parse_output_file` returns it)
/// is present on disk; only the caller can check that, and it is read
/// only when a path was recovered.
pub fn interpret_extractor_outcome(
    stdout: &str,
    stderr: &str,
    exit_ok: bool,
    path_exists: bool,
    output_dir: &str,
) -> (r: DownloadResult)
    ensures
        r.success == exit_ok,
        exit_ok ==> r.message@ == success_message(title_from(parsed_path(stdout@)))
            && opt_view(r.output_path) == Some(
            resolved_path(parsed_path(stdout@), path_exists, output_dir@),
        ),
        !exit_ok ==> r.message@ == extractor_error_of(stderr@) && r.output_path is None,
{
    if exit_ok {
        let parsed = parse_output_file(stdout);
        let title = parse_title(stdout, &parsed);
        let path = resolve_output_path(&parsed, path_exists, output_dir);
        DownloadResult {
            success: true,
            message: String::from_str("Downloaded \"").concat(title.as_str()).concat(
                "\" successfully",
            ),
            output_path: Some(path),
        }
    } else {
        DownloadResult {
            success: false,
            message: clean_extractor_error(stderr),
            output_path: None,
        }
    }
}

/// Turn a finished music-downloader run into the result record; on
/// success the reported path is the output directory itself.
pub fn interpret_music_outcome(stdout: &str, stderr: &str, exit_ok: bool, output_dir: &str) -> (r:
    DownloadResult)
    ensures
        r.success == exit_ok,
        exit_ok ==> r.message@ == "Spotify download complete"@ && opt_view(r.output_path)
            == Some(output_dir@),
        !exit_ok ==> r.message@ == music_error_of(stdout@, stderr@) && r.output_path is None,
{
    if exit_ok {
        DownloadResult {
            success: true,
            message: String::from_str("Spotify download complete"),
            output_path: Some(String::from_str(output_dir)),
        }
    } else {
        DownloadResult {
            success: false,
            message: clean_music_error(stdout, stderr),
            output_path: None,
        }
    }
}

/// The message of a tool that could not be launched at all, with its
/// remediation hint around the system's detail text.
pub open spec fn launch_error_message(tool: Tool, detail: Seq<char>) -> Seq<char> {
    (match tool {
        Tool::Extractor => "Could not run yt-dlp — is it installed? ("@,
        Tool::Music => "Could not run spotdl — is it installed? ("@,
    }) + detail + ")"@
}

/// The result of a tool that could not be launched: distinct from a tool
/// that ran and failed.
pub fn launch_error_result(tool: Tool, detail: &str) -> (r: DownloadResult)
    ensures
        r.success == false,
        r.message@ == launch_error_message(tool, detail@),
        r.output_path is None,
{
    let head = match tool {
        Tool::Extractor => "Could not run yt-dlp — is it installed? (",
        Tool::Music => "Could not run spotdl — is it installed? (",
    };
    DownloadResult {
        success: false,
        message: String::from_str(head).concat(detail).concat(")"),
        output_path: None,
    }
}

/// The message when the output directory cannot be created; the request
/// is surfaced as failed before any tool is launched.
pub open spec fn dir_error_message(detail: Seq<char>) -> Seq<char> {
    "Failed to create output directory: "@ + detail
}

/// The result of a failed output-directory creation.
pub fn dir_error_result(detail: &str) -> (r: DownloadResult)
    ensures
        r.success == false,
        r.message@ == dir_error_message(detail@),
        r.output_path is None,
{
    DownloadResult {
        success: false,
        message: String::from_str("Failed to create output directory: ").concat(detail),
        output_path: None,
    }
}

/// Law: the last line that yields a path wins — if line `j` yields `p`
/// and no later line yields anything, the whole capture yields `p`.
pub proof fn lemma_last_line_wins(lines: Seq<Seq<char>>, j: int, p: Seq<char>)
    requires
        0 <= j < lines.len(),
        line_path(lines[j]) == Some(p),
        forall|k: int| j < k < lines.len() ==> line_path(lines[k]) is None,
    ensures
        last_path(lines) == Some(p),
    decreases lines.len(),
{
    if j == lines.len() - 1 {
    } else {
        assert(line_path(lines.last()) is None);
        lemma_last_line_wins(lines.drop_last(), j, p);
    }
}

/// Law: when no path is recoverable, the reported path is the output
/// directory itself and the title is the fixed placeholder.
pub proof fn lemma_no_path_fallback(stdout: Seq<char>, path_exists: bool, dir: Seq<char>)
    requires
        parsed_path(stdout) is None,
    ensures
        resolved_path(parsed_path(stdout), path_exists, dir) == dir,
        title_from(parsed_path(stdout)) == "Media"@,
{
}

/// Law: a recovered path that is absent on disk is never reported; the
/// output directory takes its place.
pub proof fn lemma_missing_file_fallback(p: Seq<char>, dir: Seq<char>)
    ensures
        resolved_path(Some(p), false, dir) == dir,
{
}

} // verus!
