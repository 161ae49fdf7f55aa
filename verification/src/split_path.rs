//! The names of the files a media is split into: one per chapter, named after the
//! artist, the album, the chapter's number and title, and the language of the audio.
use vstd::prelude::*;
use vstd::string::StringExecFns;

verus! {

/// The character of the decimal digit `d`.
pub open spec fn digit_char(d: nat) -> char {
    (48 + d) as char
}

/// The decimal notation of `n`.
pub open spec fn decimal(n: nat) -> Seq<char>
    decreases n,
{
    if n < 10 {
        seq![digit_char(n)]
    } else {
        decimal(n / 10).push(digit_char(n % 10))
    }
}

/// The decimal notation of `n`, on two digits at least.
pub open spec fn two_digits(n: nat) -> Seq<char> {
    if n < 10 {
        seq!['0', digit_char(n)]
    } else {
        decimal(n)
    }
}

/// `text` followed by " - ", or nothing when there is no text.
pub open spec fn dash_prefix(text: Option<Seq<char>>) -> Seq<char> {
    match text {
        Some(t) => t + seq![' ', '-', ' '],
        None => Seq::empty(),
    }
}

/// The name of the file which holds a chapter titled `title`: the artist, the album,
/// the chapter's number when the media has a table of contents, the title, the
/// language of the audio, and the extension.
pub open spec fn split_file_name(
    artist: Option<Seq<char>>,
    album: Option<Seq<char>>,
    number: Option<nat>,
    title: Seq<char>,
    language: Option<Seq<char>>,
    extension: Seq<char>,
) -> Seq<char> {
    dash_prefix(artist) + dash_prefix(album) + match number {
        Some(n) => two_digits(n),
        None => Seq::empty(),
    } + seq!['.', ' '] + title + match language {
        Some(l) => seq![' ', '('] + l + seq![')'],
        None => Seq::empty(),
    } + seq!['.'] + extension
}

/// The name of a split file starts with the artist followed by " - " when there is an
/// artist, whatever the album; the album followed by " - " comes next when there is
/// one; and the name ends with a dot and the extension.
pub proof fn lemma_split_file_name_layout(
    artist: Option<Seq<char>>,
    album: Option<Seq<char>>,
    number: Option<nat>,
    title: Seq<char>,
    language: Option<Seq<char>>,
    extension: Seq<char>,
)
    ensures
        ({
            let name = split_file_name(artist, album, number, title, language, extension);
            let after_artist: int = match artist {
                Some(a) => a.len() + 3int,
                None => 0,
            };
            &&& artist matches Some(a) ==> name.take(a.len() + 3int) == a + seq![' ', '-', ' ']
            &&& album matches Some(b) ==> name.subrange(after_artist, after_artist + b.len() + 3int)
                == b + seq![' ', '-', ' ']
            &&& name.len() >= extension.len() + 1
            &&& name.skip(name.len() - extension.len() - 1int) == seq!['.'] + extension
        }),
{
    let name = split_file_name(artist, album, number, title, language, extension);
    let head = dash_prefix(artist);
    let middle = dash_prefix(album);
    let rest = name.skip(head.len() + middle.len() as int);
    assert(name == head + middle + rest) by {
        assert(name =~= head + middle + rest);
    }
    if let Some(a) = artist {
        assert(name.take(a.len() + 3int) =~= a + seq![' ', '-', ' ']);
    }
    if let Some(b) = album {
        assert(name.subrange(head.len() as int, head.len() + b.len() + 3int) =~= b + seq![' ', '-', ' ']);
    }
    assert(name.skip(name.len() - extension.len() - 1int) =~= seq!['.'] + extension);
}

fn digit_str(d: usize) -> (r: &'static str)
    requires
        d < 10,
    ensures
        r@ == seq![digit_char(d as nat)],
{
    proof {
        reveal_strlit("0");
        reveal_strlit("1");
        reveal_strlit("2");
        reveal_strlit("3");
        reveal_strlit("4");
        reveal_strlit("5");
        reveal_strlit("6");
        reveal_strlit("7");
        reveal_strlit("8");
        reveal_strlit("9");
    }
    match d {
        0 => "0",
        1 => "1",
        2 => "2",
        3 => "3",
        4 => "4",
        5 => "5",
        6 => "6",
        7 => "7",
        8 => "8",
        _ => "9",
    }
}

/// Appends the decimal notation of `n` to `text`.
fn push_decimal(text: &mut String, n: usize)
    ensures
        final(text)@ == old(text)@ + decimal(n as nat),
    decreases n,
{
    if n >= 10 {
        push_decimal(text, n / 10);
    }
    text.append(digit_str(n % 10));
    assert(final(text)@ =~= old(text)@ + decimal(n as nat));
}

/// The abstract value of an optional text.
pub open spec fn opt_view(text: Option<&str>) -> Option<Seq<char>> {
    match text {
        Some(t) => Some(t@),
        None => None,
    }
}

fn append_dash_prefix(name: &mut String, text: Option<&str>)
    ensures
        final(name)@ == old(name)@ + dash_prefix(opt_view(text)),
{
    proof {
        reveal_strlit(" - ");
    }
    if let Some(t) = text {
        name.append(t);
        name.append(" - ");
    }
    assert(final(name)@ =~= old(name)@ + dash_prefix(opt_view(text)));
}

fn append_number(name: &mut String, number: Option<usize>)
    ensures
        final(name)@ == old(name)@ + match number {
            Some(n) => two_digits(n as nat),
            None => Seq::<char>::empty(),
        },
{
    proof {
        reveal_strlit("0");
    }
    if let Some(n) = number {
        if n < 10 {
            name.append("0");
        }
        push_decimal(name, n);
    }
    assert(final(name)@ =~= old(name)@ + match number {
        Some(n) => two_digits(n as nat),
        None => Seq::<char>::empty(),
    });
}

fn append_language(name: &mut String, language: Option<&str>)
    ensures
        final(name)@ == old(name)@ + match language {
            Some(l) => seq![' ', '('] + l@ + seq![')'],
            None => Seq::<char>::empty(),
        },
{
    proof {
        reveal_strlit(" (");
        reveal_strlit(")");
    }
    if let Some(l) = language {
        name.append(" (");
        name.append(l);
        name.append(")");
    }
    assert(final(name)@ =~= old(name)@ + match language {
        Some(l) => seq![' ', '('] + l@ + seq![')'],
        None => Seq::<char>::empty(),
    });
}

/// The name of the file which holds the chapter titled `title`; `number` is the
/// chapter's number when the media has a table of contents.
pub fn split_name(
    artist: Option<&str>,
    album: Option<&str>,
    number: Option<usize>,
    title: &str,
    language: Option<&str>,
    extension: &str,
) -> (name: String)
    ensures
        name@ == split_file_name(
            opt_view(artist),
            opt_view(album),
            match number {
                Some(n) => Some(n as nat),
                None => None,
            },
            title@,
            opt_view(language),
            extension@,
        ),
{
    proof {
        reveal_strlit(". ");
        reveal_strlit(".");
    }
    let mut name = String::new();
    append_dash_prefix(&mut name, artist);
    append_dash_prefix(&mut name, album);
    append_number(&mut name, number);
    name.append(". ");
    name.append(title);
    append_language(&mut name, language);
    name.append(".");
    name.append(extension);
    name
}

} // verus!
