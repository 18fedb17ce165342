//! Cutting the text of a rule book's pages into chunks of about 2000 bytes for the
//! archive of the game master: each page is split into words, and the words are
//! packed into chunks that stay within the size unless a single word exceeds it.
use vstd::prelude::*;

use crate::error::Error;
use crate::text::{chars_of, concat3, owned, push_char};

verus! {

broadcast use vstd::string::group_string_axioms;

/// The characters with the Unicode `White_Space` property.
pub open spec fn is_white(c: char) -> bool {
    let n = c as u32;
    ||| 0x09 <= n <= 0x0D
    ||| n == 0x20
    ||| n == 0x85
    ||| n == 0xA0
    ||| n == 0x1680
    ||| 0x2000 <= n <= 0x200A
    ||| n == 0x2028
    ||| n == 0x2029
    ||| n == 0x202F
    ||| n == 0x205F
    ||| n == 0x3000
}

fn white(c: char) -> (b: bool)
    ensures
        b == is_white(c),
{
    let n = c as u32;
    (0x09 <= n && n <= 0x0D) || n == 0x20 || n == 0x85 || n == 0xA0 || n == 0x1680 || (0x2000 <= n
        && n <= 0x200A) || n == 0x2028 || n == 0x2029 || n == 0x202F || n == 0x205F || n == 0x3000
}

/// The words found so far in `s`, and the word being read at its end.
pub open spec fn split_state(s: Seq<char>) -> (Seq<Seq<char>>, Seq<char>)
    decreases s.len(),
{
    if s.len() == 0 {
        (Seq::empty(), Seq::empty())
    } else {
        let (ws, cur) = split_state(s.drop_last());
        let c = s.last();
        if is_white(c) {
            if cur.len() > 0 {
                (ws.push(cur), Seq::empty())
            } else {
                (ws, Seq::empty())
            }
        } else {
            (ws, cur.push(c))
        }
    }
}

/// The words of `s`: its longest runs of characters that are not white space.
pub open spec fn words_of(s: Seq<char>) -> Seq<Seq<char>> {
    let (ws, cur) = split_state(s);
    if cur.len() > 0 {
        ws.push(cur)
    } else {
        ws
    }
}

/// The words of a text, in order.
pub fn split_words(s: &str) -> (ws: Vec<String>)
    ensures
        ws@.map_values(|w: String| w@) == words_of(s@),
{
    let cs = chars_of(s);
    let mut ws: Vec<String> = Vec::new();
    let mut cur = String::new();
    let mut i: usize = 0;
    while i < cs.len()
        invariant
            cs@ == s@,
            i <= cs@.len(),
            ws@.map_values(|w: String| w@) == split_state(s@.take(i as int)).0,
            cur@ == split_state(s@.take(i as int)).1,
        decreases cs.len() - i,
    {
        assert(s@.take(i as int) =~= s@.take((i + 1) as int).drop_last());
        let c = cs[i];
        let ghost before = ws@.map_values(|w: String| w@);
        if white(c) {
            if !cur.as_str().is_empty() {
                let word = cur;
                ws.push(word);
                assert(ws@.map_values(|w: String| w@) =~= before.push(word@));
                cur = String::new();
            }
        } else {
            push_char(&mut cur, c);
        }
        i = i + 1;
    }
    assert(s@.take(i as int) =~= s@);
    if !cur.as_str().is_empty() {
        let ghost before = ws@.map_values(|w: String| w@);
        let word = cur;
        ws.push(word);
        assert(ws@.map_values(|w: String| w@) =~= before.push(word@));
    }
    ws
}

/// The bytes a character takes in UTF-8.
pub open spec fn char_width(c: char) -> nat {
    let n = c as u32;
    if n < 0x80 {
        1
    } else if n < 0x800 {
        2
    } else if n < 0x10000 {
        3
    } else {
        4
    }
}

/// The bytes a text takes in UTF-8.
pub open spec fn text_bytes(s: Seq<char>) -> nat
    decreases s.len(),
{
    if s.len() == 0 {
        0
    } else {
        text_bytes(s.drop_last()) + char_width(s.last())
    }
}

/// The size in bytes of a chunk being filled: each word and the space after it.
pub open spec fn chunk_bytes(cur: Seq<Seq<char>>) -> nat
    decreases cur.len(),
{
    if cur.len() == 0 {
        0
    } else {
        chunk_bytes(cur.drop_last()) + text_bytes(cur.last()) + 1
    }
}

/// The size a chunk stays within.
pub const CHUNK_SIZE: u64 = 2000;

/// The chunks filled so far, each a list of words, and the chunk being filled: a
/// word that would take the chunk being filled past the size closes it first.
pub open spec fn pack_state(ws: Seq<Seq<char>>) -> (Seq<Seq<Seq<char>>>, Seq<Seq<char>>)
    decreases ws.len(),
{
    if ws.len() == 0 {
        (Seq::empty(), Seq::empty())
    } else {
        let (cs, cur) = pack_state(ws.drop_last());
        let w = ws.last();
        if cur.len() > 0 && chunk_bytes(cur) + text_bytes(w) + 1 > CHUNK_SIZE {
            (cs.push(cur), seq![w])
        } else {
            (cs, cur.push(w))
        }
    }
}

/// Packing keeps every word, in order: the closed chunks followed by the chunk
/// being filled give back the words.
pub proof fn law_chunks_keep_words(ws: Seq<Seq<char>>)
    ensures
        pack_state(ws).0.flatten_alt() + pack_state(ws).1 == ws,
    decreases ws.len(),
{
    if ws.len() > 0 {
        law_chunks_keep_words(ws.drop_last());
        let (cs, cur) = pack_state(ws.drop_last());
        let w = ws.last();
        if cur.len() > 0 && chunk_bytes(cur) + text_bytes(w) + 1 > CHUNK_SIZE {
            assert(cs.push(cur).drop_last() =~= cs);
            assert(cs.push(cur).flatten_alt() == cs.flatten_alt() + cur);
            assert(ws.drop_last().push(w) =~= ws);
            assert(cs.flatten_alt() + cur + seq![w] =~= (cs.flatten_alt() + cur).push(w));
        } else {
            assert(ws.drop_last().push(w) =~= ws);
            assert(cs.flatten_alt() + cur.push(w) =~= (cs.flatten_alt() + cur).push(w));
        }
    }
}

/// A chunk is not empty, and it stays within the chunk size unless it is a single
/// word.
pub open spec fn chunk_fits(c: Seq<Seq<char>>) -> bool {
    c.len() == 1 || (c.len() > 1 && chunk_bytes(c) <= CHUNK_SIZE)
}

/// Every chunk, closed or being filled, is a single word or stays within the chunk
/// size.
pub proof fn law_chunks_within_size(ws: Seq<Seq<char>>)
    ensures
        forall|i: int| 0 <= i < pack_state(ws).0.len() ==> chunk_fits(#[trigger] pack_state(ws).0[i]),
        pack_state(ws).1.len() > 0 ==> chunk_fits(pack_state(ws).1),
    decreases ws.len(),
{
    if ws.len() > 0 {
        law_chunks_within_size(ws.drop_last());
        let (cs, cur) = pack_state(ws.drop_last());
        let w = ws.last();
        if cur.len() > 0 && chunk_bytes(cur) + text_bytes(w) + 1 > CHUNK_SIZE {
            assert forall|i: int| 0 <= i < cs.push(cur).len() implies chunk_fits(
                #[trigger] cs.push(cur)[i],
            ) by {
                if i < cs.len() {
                    assert(cs.push(cur)[i] == cs[i]);
                }
            }
        } else {
            assert(cur.push(w).drop_last() =~= cur);
        }
    }
}

/// The words of a chunk with single spaces between them.
pub open spec fn join_words(cur: Seq<Seq<char>>) -> Seq<char>
    decreases cur.len(),
{
    if cur.len() == 0 {
        Seq::empty()
    } else if cur.len() == 1 {
        cur[0]
    } else {
        join_words(cur.drop_last()) + " "@ + cur.last()
    }
}

/// The chunks of a page, as texts.
pub open spec fn page_chunks(page: Seq<char>) -> Seq<Seq<char>> {
    let (cs, cur) = pack_state(words_of(page));
    let all = if cur.len() > 0 {
        cs.push(cur)
    } else {
        cs
    };
    all.map_values(|c: Seq<Seq<char>>| join_words(c))
}

/// The chunks of the pages, page by page; a page without words gives none.
pub open spec fn pdf_chunks(pages: Seq<String>) -> Seq<Seq<Seq<char>>>
    decreases pages.len(),
{
    if pages.len() == 0 {
        Seq::empty()
    } else {
        let rest = pdf_chunks(pages.drop_last());
        let here = page_chunks(pages.last()@);
        if here.len() > 0 {
            rest.push(here)
        } else {
            rest
        }
    }
}

/// The smaller of `n` and one more than the chunk size.
pub open spec fn capped(n: nat) -> nat {
    if n > CHUNK_SIZE {
        (CHUNK_SIZE + 1) as nat
    } else {
        n
    }
}

/// The UTF-8 size of a word, or one more than the chunk size for a longer word.
fn capped_bytes(w: &str) -> (n: u64)
    ensures
        n == capped(text_bytes(w@)),
{
    let cs = chars_of(w);
    let mut n: u64 = 0;
    let mut i: usize = 0;
    while i < cs.len()
        invariant
            cs@ == w@,
            i <= cs@.len(),
            n == capped(text_bytes(w@.take(i as int))),
        decreases cs.len() - i,
    {
        assert(w@.take(i as int) =~= w@.take((i + 1) as int).drop_last());
        let c = cs[i] as u32;
        let width: u64 = if c < 0x80 {
            1
        } else if c < 0x800 {
            2
        } else if c < 0x10000 {
            3
        } else {
            4
        };
        n = if n + width > CHUNK_SIZE {
            CHUNK_SIZE + 1
        } else {
            n + width
        };
        i = i + 1;
    }
    assert(w@.take(i as int) =~= w@);
    n
}

/// The chunks of one page.
pub fn chunk_page(page: &str) -> (chunks: Vec<String>)
    ensures
        chunks@.map_values(|c: String| c@) == page_chunks(page@),
{
    let ws = split_words(page);
    let ghost words = ws@.map_values(|w: String| w@);
    let mut done: Vec<String> = Vec::new();
    let mut text = String::new();
    let mut count: usize = 0;
    let mut size: u64 = 0;
    let mut k: usize = 0;
    while k < ws.len()
        invariant
            words == ws@.map_values(|w: String| w@),
            words == words_of(page@),
            k <= ws@.len(),
            done@.map_values(|c: String| c@) == pack_state(words.take(k as int)).0.map_values(
                |c: Seq<Seq<char>>| join_words(c),
            ),
            text@ == join_words(pack_state(words.take(k as int)).1),
            count == pack_state(words.take(k as int)).1.len(),
            count <= k,
            size == capped(chunk_bytes(pack_state(words.take(k as int)).1)),
        decreases ws.len() - k,
    {
        assert(words.take(k as int) =~= words.take((k + 1) as int).drop_last());
        let ghost cs = pack_state(words.take(k as int)).0;
        let ghost cur = pack_state(words.take(k as int)).1;
        let w = ws[k].as_str();
        assert(words[k as int] == w@);
        let wsize = capped_bytes(w);
        if count > 0 && size + wsize + 1 > CHUNK_SIZE {
            let closed = text;
            let ghost before = done@.map_values(|c: String| c@);
            done.push(closed);
            assert(done@.map_values(|c: String| c@) =~= before.push(join_words(cur)));
            assert(cs.push(cur).map_values(|c: Seq<Seq<char>>| join_words(c)) =~= cs.map_values(
                |c: Seq<Seq<char>>| join_words(c),
            ).push(join_words(cur)));
            text = owned(w);
            count = 1;
            size = if wsize + 1 > CHUNK_SIZE {
                CHUNK_SIZE + 1
            } else {
                wsize + 1
            };
            assert(seq![w@].drop_last() =~= Seq::<Seq<char>>::empty());
            assert(seq![w@].last() == w@);
            assert(chunk_bytes(Seq::<Seq<char>>::empty()) == 0);
            assert(chunk_bytes(seq![w@]) == text_bytes(w@) + 1);
        } else {
            if count == 0 {
                text = owned(w);
            } else {
                text = concat3(text.as_str(), " ", w);
            }
            assert(cur.push(w@).drop_last() =~= cur);
            assert(chunk_bytes(cur.push(w@)) == chunk_bytes(cur) + text_bytes(w@) + 1);
            count = count + 1;
            size = if size + wsize + 1 > CHUNK_SIZE {
                CHUNK_SIZE + 1
            } else {
                size + wsize + 1
            };
        }
        k = k + 1;
    }
    assert(words.take(k as int) =~= words);
    if count > 0 {
        let ghost cs = pack_state(words).0;
        let ghost cur = pack_state(words).1;
        let closed = text;
        let ghost before = done@.map_values(|c: String| c@);
        done.push(closed);
        assert(done@.map_values(|c: String| c@) =~= before.push(join_words(cur)));
        assert(cs.push(cur).map_values(|c: Seq<Seq<char>>| join_words(c)) =~= cs.map_values(
            |c: Seq<Seq<char>>| join_words(c),
        ).push(join_words(cur)));
    }
    done
}

/// The chunks of the pages of a rule book, page by page; pages without words are
/// left out.
pub fn chunk_pdf(pdf_content: &Vec<String>) -> (r: Result<Vec<Vec<String>>, Error>)
    ensures
        r matches Ok(chunks) && chunks@.map_values(
            |p: Vec<String>| p@.map_values(|c: String| c@),
        ) == pdf_chunks(pdf_content@),
{
    let mut all: Vec<Vec<String>> = Vec::new();
    let mut i: usize = 0;
    while i < pdf_content.len()
        invariant
            i <= pdf_content@.len(),
            all@.map_values(|p: Vec<String>| p@.map_values(|c: String| c@)) == pdf_chunks(
                pdf_content@.take(i as int),
            ),
        decreases pdf_content.len() - i,
    {
        assert(pdf_content@.take(i as int) =~= pdf_content@.take((i + 1) as int).drop_last());
        let page = chunk_page(pdf_content[i].as_str());
        if page.len() > 0 {
            let ghost before = all@.map_values(|p: Vec<String>| p@.map_values(|c: String| c@));
            let ghost here = page@.map_values(|c: String| c@);
            all.push(page);
            assert(all@.map_values(|p: Vec<String>| p@.map_values(|c: String| c@)) =~= before.push(
                here,
            ));
        }
        i = i + 1;
    }
    assert(pdf_content@.take(i as int) =~= pdf_content@);
    Ok(all)
}

} // verus!
