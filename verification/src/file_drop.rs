//! Files dropped onto the window from the system file manager: the page
//! cannot read them, so they are handed to it as a script that rebuilds
//! each file from base64 and dispatches the drag-and-drop events.

use vstd::prelude::*;
use base64::Engine;

verus! {

// ---- Outside computations -------------------------------------------------

/// What `base64::engine::general_purpose::STANDARD.encode` gives for these
/// bytes.
pub uninterp spec fn base64_standard(bytes: Seq<u8>) -> Seq<char>;

/// Characters of the standard base64 alphabet, and the padding `=`.
pub open spec fn is_base64_char(c: char) -> bool {
    ('A' <= c && c <= 'Z') || ('a' <= c && c <= 'z') || ('0' <= c && c <= '9') || c == '+' || c
        == '/' || c == '='
}

/// The length of a padded base64 encoding of `n` bytes.
pub open spec fn base64_len(n: int) -> int {
    4 * ((n + 2) / 3)
}

/// Encodes bytes as standard, padded base64 with the `base64` crate.
///
/// Trusted: the text is what `STANDARD.encode` gives; as the crate documents
/// for the padded standard engine, it is `4 * ceil(n / 3)` characters of the
/// standard alphabet and `=`. The call panics where that length overflows
/// `usize`, which the precondition rules out.
#[verifier::external_body]
fn encode_base64(bytes: &[u8]) -> (r: String)
    requires
        base64_len(bytes@.len() as int) <= usize::MAX,
    ensures
        r@ == base64_standard(bytes@),
        r@.len() == base64_len(bytes@.len() as int),
        forall|i: int| 0 <= i < r@.len() ==> is_base64_char(#[trigger] r@[i]),
{
    base64::engine::general_purpose::STANDARD.encode(bytes)
}

/// What `mime_guess::from_path(name).first_or_octet_stream()` gives, as text.
pub uninterp spec fn guessed_mime(file_name: Seq<char>) -> Seq<char>;

/// Guesses a media type from a file name's extension with `mime_guess`.
///
/// Trusted: the text is the first type that `mime_guess` knows for the
/// extension, or `application/octet-stream`; as the crate documents, a
/// name without an extension (here: without any `.`) gets the latter. The
/// table itself is not stated.
#[verifier::external_body]
fn mime_for_name(file_name: &str) -> (r: String)
    ensures
        r@ == guessed_mime(file_name@),
        !file_name@.contains('.') ==> r@ == "application/octet-stream"@,
{
    mime_guess::from_path(file_name).first_or_octet_stream().to_string()
}

// ---- Escaping a name for a JavaScript string literal ------------------------

/// The escape of one character: backslash and double quote get a backslash.
pub open spec fn escape_char(c: char) -> Seq<char> {
    if c == '\\' || c == '"' {
        seq!['\\', c]
    } else {
        seq![c]
    }
}

/// `s` made safe inside a double-quoted JavaScript string literal.
pub open spec fn js_escape(s: Seq<char>) -> Seq<char>
    decreases s.len(),
{
    if s.len() == 0 {
        Seq::empty()
    } else {
        escape_char(s[0]) + js_escape(s.drop_first())
    }
}

/// How JavaScript reads the body of a string literal back: a backslash takes
/// the next character as it is.
pub open spec fn js_unescape(t: Seq<char>) -> Seq<char>
    decreases t.len(),
{
    if t.len() == 0 {
        Seq::empty()
    } else if t[0] == '\\' && t.len() >= 2 {
        seq![t[1]] + js_unescape(t.subrange(2, t.len() as int))
    } else {
        seq![t[0]] + js_unescape(t.drop_first())
    }
}

proof fn lemma_escape_push(s: Seq<char>, c: char)
    ensures
        js_escape(s.push(c)) == js_escape(s) + escape_char(c),
    decreases s.len(),
{
    if s.len() == 0 {
        assert(s.push(c).drop_first() =~= Seq::<char>::empty());
        assert(js_escape(Seq::<char>::empty()) =~= Seq::<char>::empty());
        assert(s.push(c)[0] == c);
        assert(js_escape(s) =~= Seq::<char>::empty());
        assert(js_escape(s.push(c)) =~= escape_char(c));
    } else {
        assert(s.push(c).drop_first() =~= s.drop_first().push(c));
        lemma_escape_push(s.drop_first(), c);
        assert(js_escape(s.push(c)) =~= js_escape(s) + escape_char(c));
    }
}

/// Escapes a file name for a double-quoted JavaScript string literal.
pub fn escape_js(s: &str) -> (r: String)
    ensures
        r@ == js_escape(s@),
{
    let n = s.unicode_len();
    let mut out = String::new();
    let mut i: usize = 0;
    while i < n
        invariant
            i <= n,
            n == s@.len(),
            out@ == js_escape(s@.take(i as int)),
        decreases n - i,
    {
        let c = s.get_char(i);
        proof {
            assert(s@.take(i + 1) =~= s@.take(i as int).push(c));
            lemma_escape_push(s@.take(i as int), c);
        }
        if c == '\\' {
            out.append("\\\\");
        } else if c == '"' {
            out.append("\\\"");
        } else {
            out.append(s.substring_char(i, i + 1));
        }
        proof {
            reveal_strlit("\\\\");
            reveal_strlit("\\\"");
            assert(out@ =~= js_escape(s@.take(i as int)) + escape_char(c));
        }
        i = i + 1;
    }
    assert(s@.take(n as int) =~= s@);
    out
}

/// The page reads an escaped name back as the original name.
pub proof fn law_escape_round_trip(s: Seq<char>)
    ensures
        js_unescape(js_escape(s)) == s,
    decreases s.len(),
{
    if s.len() > 0 {
        let c = s[0];
        let rest = js_escape(s.drop_first());
        law_escape_round_trip(s.drop_first());
        let t = escape_char(c) + rest;
        if c == '\\' || c == '"' {
            assert(t.subrange(2, t.len() as int) =~= rest);
        } else {
            assert(t.drop_first() =~= rest);
        }
        assert(js_unescape(t) =~= s);
    }
}

// ---- The script --------------------------------------------------------------

/// A dropped file whose name and contents could be read.
pub struct DroppedFile {
    pub name: String,
    pub contents: Vec<u8>,
}

/// The expression that rebuilds one file in the page.
pub open spec fn file_entry_spec(name: Seq<char>, contents: Seq<u8>) -> Seq<char> {
    "(()=>{const s=atob(\""@ + base64_standard(contents)
        + "\");const a=new Uint8Array(s.length);for(let i=0;i<s.length;i++)a[i]=s.charCodeAt(i);return new File([a],\""@
        + js_escape(name) + "\",{type:\""@ + guessed_mime(name) + "\"})})()"@
}

/// Whether every file is small enough to be encoded.
pub open spec fn encodable(files: Seq<DroppedFile>) -> bool {
    forall|i: int| 0 <= i < files.len() ==> base64_len(#[trigger] files[i].contents@.len() as int) <= usize::MAX
}

/// The comma-separated expressions of a list of files.
pub open spec fn files_js_spec(files: Seq<DroppedFile>) -> Seq<char>
    decreases files.len(),
{
    if files.len() == 0 {
        Seq::empty()
    } else if files.len() == 1 {
        file_entry_spec(files[0].name@, files[0].contents@)
    } else {
        files_js_spec(files.drop_last()) + ","@ + file_entry_spec(
            files.last().name@,
            files.last().contents@,
        )
    }
}

/// The expression that rebuilds one dropped file in the page, with its
/// contents in base64, its escaped name and its guessed media type.
pub fn file_entry_js(file: &DroppedFile) -> (r: String)
    requires
        base64_len(file.contents@.len() as int) <= usize::MAX,
    ensures
        r@ == file_entry_spec(file.name@, file.contents@),
{
    let b64 = encode_base64(file.contents.as_slice());
    let name_js = escape_js(file.name.as_str());
    let mime = mime_for_name(file.name.as_str());
    let mut t = String::from_str("(()=>{const s=atob(\"");
    t.append(b64.as_str());
    t.append(
        "\");const a=new Uint8Array(s.length);for(let i=0;i<s.length;i++)a[i]=s.charCodeAt(i);return new File([a],\"",
    );
    t.append(name_js.as_str());
    t.append("\",{type:\"");
    t.append(mime.as_str());
    t.append("\"})})()");
    t
}

/// The file expressions of all dropped files, separated by commas.
pub fn files_js(files: &Vec<DroppedFile>) -> (r: String)
    requires
        encodable(files@),
    ensures
        r@ == files_js_spec(files@),
{
    let mut out = String::new();
    let mut i: usize = 0;
    while i < files.len()
        invariant
            i <= files.len(),
            encodable(files@),
            out@ == files_js_spec(files@.take(i as int)),
        decreases files.len() - i,
    {
        let entry = file_entry_js(&files[i]);
        proof {
            assert(files@.take(i + 1).drop_last() =~= files@.take(i as int));
        }
        if i > 0 {
            out.append(",");
        }
        out.append(entry.as_str());
        proof {
            if i == 0 {
                assert(files_js_spec(files@.take(0)) =~= Seq::<char>::empty());
                assert(out@ =~= files_js_spec(files@.take(1)));
            }
        }
        i = i + 1;
    }
    assert(files@.take(files.len() as int) =~= files@);
    out
}

/// The script that hands the files to the page: it builds a `DataTransfer`
/// holding them and dispatches `dragenter`, `dragover` and `drop` at the
/// element under the drop point (`x`, `y` in page pixels, as text).
pub open spec fn drop_script_spec(files_js: Seq<char>, x: Seq<char>, y: Seq<char>) -> Seq<char> {
    "(()=>{\n            const files=["@ + files_js
        + "];\n            const dt=new DataTransfer();\n            files.forEach(f=>dt.items.add(f));\n            const el=document.elementFromPoint("@
        + x + ","@ + y
        + ")||document.body;\n            for(const t of['dragenter','dragover','drop']){\n                el.dispatchEvent(new DragEvent(t,{bubbles:true,cancelable:true,dataTransfer:dt}));\n            }\n        })();"@
}

/// The script that forwards a drop, or none when no file could be read.
pub fn drop_script(files_js: &str, x: &str, y: &str) -> (r: Option<String>)
    ensures
        files_js@.len() == 0 ==> r is None,
        files_js@.len() > 0 ==> (r matches Some(s) && s@ == drop_script_spec(files_js@, x@, y@)),
{
    if files_js.unicode_len() == 0 {
        return None;
    }
    let mut t = String::from_str("(()=>{\n            const files=[");
    t.append(files_js);
    t.append(
        "];\n            const dt=new DataTransfer();\n            files.forEach(f=>dt.items.add(f));\n            const el=document.elementFromPoint(",
    );
    t.append(x);
    t.append(",");
    t.append(y);
    t.append(
        ")||document.body;\n            for(const t of['dragenter','dragover','drop']){\n                el.dispatchEvent(new DragEvent(t,{bubbles:true,cancelable:true,dataTransfer:dt}));\n            }\n        })();",
    );
    Some(t)
}

/// Some file in a drop gives a non-empty list, so a drop with a readable
/// file is always forwarded.
pub proof fn law_files_js_nonempty(files: Seq<DroppedFile>)
    requires
        files.len() > 0,
    ensures
        files_js_spec(files).len() > 0,
    decreases files.len(),
{
    reveal_strlit("(()=>{const s=atob(\"");
    if files.len() > 1 {
        law_files_js_nonempty(files.drop_last());
    }
}

} // verus!
