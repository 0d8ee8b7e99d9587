//! The wallpapers provider: which files are wallpapers, the command that
//! sets one, and the names of cached previews.

use vstd::prelude::*;
use crate::text::{
    char_vec, chars_eq, decimal, lemma_decimal_digits, lemma_decimal_injective, push_char,
    push_decimal, split_once, split_once_chars, split_words, to_lowercase, views, words, lowercase,
};

verus! {

broadcast use vstd::string::group_string_axioms;

/// The BLAKE3 hash of `data`: 32 bytes.
pub uninterp spec fn blake3_digest(data: Seq<u8>) -> Seq<u8>;

/// `blake3::hash`, the hash's bytes taken with `Hash::as_bytes`. The
/// contract names the result and states its length, 32 bytes, which the
/// crate's documentation gives (`OUT_LEN`).
#[verifier::external_body]
fn blake3_hash(data: &[u8]) -> (r: Vec<u8>)
    ensures
        r@ == blake3_digest(data@),
        r@.len() == 32,
{
    blake3::hash(data).as_bytes().to_vec()
}

/// The lowercase hexadecimal digit of `d`, for `d` below sixteen.
pub open spec fn hex_digit(d: nat) -> char {
    if d < 10 {
        (('0' as u32) + d) as char
    } else {
        (('a' as u32) + (d - 10)) as char
    }
}

/// `bytes` in lowercase hexadecimal, two digits a byte, high half first.
pub open spec fn hex_lower(bytes: Seq<u8>) -> Seq<char>
    decreases bytes.len(),
{
    if bytes.len() == 0 {
        Seq::empty()
    } else {
        hex_lower(bytes.drop_last()).push(hex_digit((bytes.last() / 16) as nat)).push(
            hex_digit((bytes.last() % 16) as nat),
        )
    }
}

/// The hexadecimal digit character of `d`.
fn hex_char(d: u8) -> (c: char)
    requires
        d < 16,
    ensures
        c == hex_digit(d as nat),
{
    if d < 10 {
        (48 + d) as char
    } else {
        (97 + (d - 10)) as char
    }
}

/// Writes `bytes` in lowercase hexadecimal.
pub fn to_hex(bytes: &Vec<u8>) -> (r: String)
    ensures
        r@ == hex_lower(bytes@),
{
    let mut r = String::new();
    let mut i: usize = 0;
    assert(bytes@.take(0) =~= Seq::<u8>::empty());
    while i < bytes.len()
        invariant
            i <= bytes@.len(),
            r@ == hex_lower(bytes@.take(i as int)),
        decreases bytes@.len() - i,
    {
        let b = bytes[i];
        push_char(&mut r, hex_char(b / 16));
        push_char(&mut r, hex_char(b % 16));
        let ghost next = bytes@.take(i + 1);
        assert(next.drop_last() =~= bytes@.take(i as int));
        i += 1;
    }
    assert(bytes@.take(bytes@.len() as int) =~= bytes@);
    r
}

/// Whether `c` is kept as it is in a cached file's name: an ASCII letter or
/// digit, or a dot.
pub open spec fn kept_in_cache_name(c: char) -> bool {
    ||| 'a' as u32 <= c as u32 <= 'z' as u32
    ||| 'A' as u32 <= c as u32 <= 'Z' as u32
    ||| '0' as u32 <= c as u32 <= '9' as u32
    ||| c == '.'
}

/// `name` with every character that is not kept replaced by `_`.
pub open spec fn sanitized(name: Seq<char>) -> Seq<char> {
    name.map_values(|c: char| if kept_in_cache_name(c) { c } else { '_' })
}

/// The bytes of a hash that name a cached preview: its first 16 bytes,
/// written as 32 hexadecimal characters (all of it when it is shorter).
pub open spec fn hash_prefix(digest: Seq<u8>) -> Seq<u8> {
    if digest.len() >= 16 {
        digest.take(16)
    } else {
        digest
    }
}

/// Each byte is written as two hexadecimal characters.
pub proof fn lemma_hex_lower_len(bytes: Seq<u8>)
    ensures
        hex_lower(bytes).len() == 2 * bytes.len(),
    decreases bytes.len(),
{
    if bytes.len() > 0 {
        lemma_hex_lower_len(bytes.drop_last());
    }
}

/// The first `k` bytes of `v`.
fn first_bytes(v: &Vec<u8>, k: usize) -> (r: Vec<u8>)
    requires
        k <= v@.len(),
    ensures
        r@ == v@.take(k as int),
{
    let mut r: Vec<u8> = Vec::new();
    let mut i: usize = 0;
    while i < k
        invariant
            i <= k <= v@.len(),
            r@ == v@.take(i as int),
        decreases k - i,
    {
        r.push(v[i]);
        assert(v@.take(i + 1) =~= v@.take(i as int).push(v@[i as int]));
        i += 1;
    }
    r
}

/// The name of a cached preview from the hash of the image's path, its file
/// name and the preview's size:
/// `<32 hexadecimal characters of the hash>-<sanitized file name>-<width>x<height>.png`.
pub open spec fn cache_name_of_digest(digest: Seq<u8>, file_name: Seq<char>, width: u32, height: u32) -> Seq<char> {
    hex_lower(hash_prefix(digest)) + seq!['-'] + sanitized(file_name) + seq!['-'] + decimal(width as nat) + seq!['x'] + decimal(
        height as nat,
    ) + ".png"@
}

/// The name of the cached preview of the image at `path`, whose file name
/// is `file_name`, at `width` by `height`: the name made from the BLAKE3
/// hash of the path's UTF-8 bytes.
pub open spec fn cache_name(path: Seq<char>, file_name: Seq<char>, width: u32, height: u32) -> Seq<char> {
    cache_name_of_digest(blake3_digest(vstd::utf8::encode_utf8(path)), file_name, width, height)
}

/// Replaces the characters of a file name that are not kept.
pub fn sanitize_file_name(name: &str) -> (r: String)
    ensures
        r@ == sanitized(name@),
{
    let v = char_vec(name);
    let mut r = String::new();
    let mut i: usize = 0;
    while i < v.len()
        invariant
            v@ == name@,
            i <= v@.len(),
            r@ == sanitized(v@.take(i as int)),
        decreases v@.len() - i,
    {
        let c = v[i];
        let n = c as u32;
        let keep = (97 <= n && n <= 122) || (65 <= n && n <= 90) || (48 <= n && n <= 57) || c == '.';
        assert(keep == kept_in_cache_name(c));
        if keep {
            push_char(&mut r, c);
        } else {
            push_char(&mut r, '_');
        }
        assert(sanitized(v@.take(i + 1)) =~= sanitized(v@.take(i as int)).push(if keep { c } else { '_' }));
        i += 1;
    }
    assert(v@.take(v@.len() as int) =~= v@);
    r
}

/// The file name of the cached preview of an image. `path` is the image's
/// path as text, `file_name` its last component (empty when it has none).
pub fn cache_filename(path: &str, file_name: &str, width: u32, height: u32) -> (r: String)
    ensures
        r@ == cache_name(path@, file_name@, width, height),
        r@.len() > 32,
        r@.take(32) == hex_lower(blake3_digest(vstd::utf8::encode_utf8(path@)).take(16)),
        r@[32] == '-',
{
    let digest = blake3_hash(path.as_bytes());
    let r = cache_name_from_digest(&digest, file_name, width, height);
    proof {
        let h = hex_lower(hash_prefix(digest@));
        lemma_hex_lower_len(hash_prefix(digest@));
        assert(h.len() == 32);
        assert(r@.take(32) =~= h);
        assert(r@[32] == '-');
    }
    r
}

/// The file name of a cached preview, from the hash of the image's path.
pub fn cache_name_from_digest(digest: &Vec<u8>, file_name: &str, width: u32, height: u32) -> (r: String)
    ensures
        r@ == cache_name_of_digest(digest@, file_name@, width, height),
{
    let k = if digest.len() >= 16 { 16 } else { digest.len() };
    let prefix = first_bytes(digest, k);
    assert(prefix@ == hash_prefix(digest@));
    let mut r = to_hex(&prefix);
    push_char(&mut r, '-');
    let name = sanitize_file_name(file_name);
    r.append(name.as_str());
    push_char(&mut r, '-');
    push_decimal(&mut r, width as u64);
    push_char(&mut r, 'x');
    push_decimal(&mut r, height as u64);
    r.append(".png");
    r
}

/// The previews of one image at two different sizes are cached under two
/// different names.
pub proof fn law_cache_names_differ_by_size(
    path: Seq<char>,
    file_name: Seq<char>,
    w1: u32,
    h1: u32,
    w2: u32,
    h2: u32,
)
    requires
        w1 != w2 || h1 != h2,
    ensures
        cache_name(path, file_name, w1, h1) != cache_name(path, file_name, w2, h2),
{
    let digest = blake3_digest(vstd::utf8::encode_utf8(path));
    let a = hex_lower(hash_prefix(digest)) + seq!['-'] + sanitized(file_name) + seq!['-'];
    let dw1 = decimal(w1 as nat);
    let dh1 = decimal(h1 as nat);
    let dw2 = decimal(w2 as nat);
    let dh2 = decimal(h2 as nat);
    let x1 = dw1 + seq!['x'] + dh1;
    let x2 = dw2 + seq!['x'] + dh2;
    let png = ".png"@;
    let n1 = cache_name(path, file_name, w1, h1);
    let n2 = cache_name(path, file_name, w2, h2);
    assert(n1 =~= a + x1 + png);
    assert(n2 =~= a + x2 + png);
    lemma_decimal_digits(w1 as nat);
    lemma_decimal_digits(h1 as nat);
    lemma_decimal_digits(w2 as nat);
    lemma_decimal_digits(h2 as nat);
    if n1 == n2 {
        assert(x1.len() == x2.len());
        assert(x1 =~= n1.subrange(a.len() as int, (a.len() + x1.len()) as int));
        assert(x2 =~= n2.subrange(a.len() as int, (a.len() + x2.len()) as int));
        assert(x1 == x2);
        if dw1.len() < dw2.len() {
            assert(x1[dw1.len() as int] == 'x');
            assert(x2[dw1.len() as int] == dw2[dw1.len() as int]);
            assert(48 <= (dw2[dw1.len() as int] as u32) <= 57);
        } else if dw2.len() < dw1.len() {
            assert(x2[dw2.len() as int] == 'x');
            assert(x1[dw2.len() as int] == dw1[dw2.len() as int]);
            assert(48 <= (dw1[dw2.len() as int] as u32) <= 57);
        } else {
            assert(dw1 =~= x1.take(dw1.len() as int));
            assert(dw2 =~= x2.take(dw2.len() as int));
            assert(dh1 =~= x1.skip((dw1.len() + 1) as int));
            assert(dh2 =~= x2.skip((dw2.len() + 1) as int));
            lemma_decimal_injective(w1 as nat, w2 as nat);
            lemma_decimal_injective(h1 as nat, h2 as nat);
        }
    }
}

/// The file extensions of images, in lower case.
pub open spec fn image_extensions() -> Seq<Seq<char>> {
    seq!["jpg"@, "jpeg"@, "png"@, "bmp"@, "gif"@, "webp"@, "svg"@]
}

/// Whether a file with extension `ext` is a wallpaper: its lower case is
/// one of the image extensions.
pub fn is_image_extension(ext: &str) -> (r: bool)
    ensures
        r == image_extensions().contains(lowercase(ext@)),
        r == is_one_of_the_seven(lowercase(ext@)),
{
    let lower = to_lowercase(ext);
    is_listed_image_extension(lower.as_str())
}

/// Whether `l` is `jpg`, `jpeg`, `png`, `bmp`, `gif`, `webp` or `svg`.
pub open spec fn is_one_of_the_seven(l: Seq<char>) -> bool {
    l == "jpg"@ || l == "jpeg"@ || l == "png"@ || l == "bmp"@ || l == "gif"@ || l == "webp"@ || l == "svg"@
}

/// The image extensions are exactly `jpg`, `jpeg`, `png`, `bmp`, `gif`,
/// `webp` and `svg`.
pub proof fn law_image_extensions_are_the_seven(l: Seq<char>)
    ensures
        image_extensions().contains(l) <==> (l == "jpg"@ || l == "jpeg"@ || l == "png"@ || l == "bmp"@ || l
            == "gif"@ || l == "webp"@ || l == "svg"@),
{
    let e = image_extensions();
    if l == "jpg"@ {
        assert(e[0] == l);
    } else if l == "jpeg"@ {
        assert(e[1] == l);
    } else if l == "png"@ {
        assert(e[2] == l);
    } else if l == "bmp"@ {
        assert(e[3] == l);
    } else if l == "gif"@ {
        assert(e[4] == l);
    } else if l == "webp"@ {
        assert(e[5] == l);
    } else if l == "svg"@ {
        assert(e[6] == l);
    }
}

/// Whether `lower` is one of the image extensions, as it is written.
pub fn is_listed_image_extension(lower: &str) -> (r: bool)
    ensures
        r == image_extensions().contains(lower@),
        r == is_one_of_the_seven(lower@),
{
    let v = char_vec(lower);
    let found = chars_eq(&v, "jpg") || chars_eq(&v, "jpeg") || chars_eq(&v, "png") || chars_eq(&v, "bmp")
        || chars_eq(&v, "gif") || chars_eq(&v, "webp") || chars_eq(&v, "svg");
    proof {
        let l = lower@;
        let e = image_extensions();
        if found {
            if l == "jpg"@ {
                assert(e[0] == l);
            } else if l == "jpeg"@ {
                assert(e[1] == l);
            } else if l == "png"@ {
                assert(e[2] == l);
            } else if l == "bmp"@ {
                assert(e[3] == l);
            } else if l == "gif"@ {
                assert(e[4] == l);
            } else if l == "webp"@ {
                assert(e[5] == l);
            } else {
                assert(e[6] == l);
            }
        }
    }
    proof {
        law_image_extensions_are_the_seven(lower@);
    }
    found
}

/// The path of a wallpaper named `picture_name` in the directory `dir`.
pub fn wallpaper_path(dir: &str, picture_name: &str) -> (r: String)
    ensures
        r@ == dir@ + seq!['/'] + picture_name@,
{
    let mut r = dir.to_owned();
    push_char(&mut r, '/');
    r.append(picture_name);
    r
}

/// The argument of the change command that stands for the image.
pub open spec fn image_placeholder() -> Seq<char> {
    "{{image}}"@
}

/// An argument of the change command, with the image's path for the
/// placeholder.
pub open spec fn command_argument(word: Seq<char>, image: Seq<char>) -> Seq<char> {
    if word == image_placeholder() {
        image
    } else {
        word
    }
}

/// The program and the arguments that set the wallpaper `image` with the
/// command `cmd`: the program is what comes before the first space, the
/// arguments are the words after it.
pub open spec fn change_command_parts(cmd: Seq<char>, image: Seq<char>) -> (Seq<char>, Seq<Seq<char>>) {
    let (program, rest) = split_once(cmd, ' ').unwrap();
    (program, words(rest).map_values(|w: Seq<char>| command_argument(w, image)))
}

/// Splits the change command into program and arguments, putting the
/// image's path in place of `{{image}}`.
pub fn change_wallpaper_command(cmd: &str, image: &str) -> (r: (String, Vec<String>))
    requires
        split_once(cmd@, ' ') is Some,
    ensures
        (r.0@, views(r.1@)) == change_command_parts(cmd@, image@),
{
    let cv = char_vec(cmd);
    let (program, rest) = match split_once_chars(&cv, ' ') {
        Some(p) => p,
        None => (String::new(), String::new()),
    };
    let rv = char_vec(rest.as_str());
    let ws = split_words(&rv);
    let mut args: Vec<String> = Vec::new();
    let mut i: usize = 0;
    while i < ws.len()
        invariant
            i <= ws@.len(),
            args@.len() == i,
            forall|k: int| 0 <= k < i ==> #[trigger] args@[k]@ == command_argument(ws@[k]@, image@),
        decreases ws@.len() - i,
    {
        let w = &ws[i];
        let wv = char_vec(w.as_str());
        if chars_eq(&wv, "{{image}}") {
            args.push(image.to_owned());
        } else {
            args.push(w.clone());
        }
        i += 1;
    }
    assert(views(args@) =~= words(rest@).map_values(|w: Seq<char>| command_argument(w, image@)));
    (program, args)
}

/// The arguments of `matugen` for the image `image_path`: `image`, the
/// configured flags, then the image.
pub fn matugen_arguments(flags: &Vec<String>, image_path: &str) -> (r: Vec<String>)
    ensures
        views(r@) == seq!["image"@] + views(flags@) + seq![image_path@],
{
    let mut r: Vec<String> = Vec::new();
    r.push("image".to_owned());
    let mut i: usize = 0;
    while i < flags.len()
        invariant
            i <= flags@.len(),
            views(r@) == seq!["image"@] + views(flags@.take(i as int)),
        decreases flags@.len() - i,
    {
        let ghost before = r@;
        r.push(flags[i].clone());
        assert(views(r@) =~= views(before).push(flags@[i as int]@));
        assert(views(flags@.take(i + 1)) =~= views(flags@.take(i as int)).push(flags@[i as int]@));
        i += 1;
    }
    let ghost before = r@;
    r.push(image_path.to_owned());
    assert(views(r@) =~= views(before).push(image_path@));
    assert(flags@.take(flags@.len() as int) =~= flags@);
    r
}

/// The path of the cached preview that `matugen` reads for the wallpaper
/// at `image`, whose file name is `file_name`, under the home directory
/// `home`.
pub fn matugen_image_path(home: &str, image: &str, file_name: &str) -> (r: String)
    ensures
        r@ == home@ + "/.cache/chameleon/thumbnails/"@ + cache_name(image@, file_name@, 160, 90),
{
    let mut r = home.to_owned();
    r.append("/.cache/chameleon/thumbnails/");
    let name = cache_filename(image, file_name, 160, 90);
    r.append(name.as_str());
    r
}

} // verus!
