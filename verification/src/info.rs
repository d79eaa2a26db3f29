//! What the reducer knows of the machine it runs on.

use crate::parse::{
    chars_of, copy_range, has_prefix, lines, rows, run_length, skip, spells, split_lines,
    split_words, string_of, trimmed, trimmed_starts_with, words, Run,
};
use vstd::prelude::*;

verus! {

/// The machine's network addresses and the number of its displays.
#[derive(Debug)]
pub struct Info {
    /// The addresses under which the control surface can be reached.
    pub ips: Vec<String>,
    /// The number of connected displays; each gets a timer.
    pub number_displays: usize,
}

/// The mathematical content of an [`Info`].
pub struct InfoView {
    pub ips: Seq<Seq<char>>,
    pub number_displays: usize,
}

/// The texts of a list of strings.
pub open spec fn texts(strings: Seq<String>) -> Seq<Seq<char>> {
    Seq::new(strings.len(), |i: int| strings[i]@)
}

/// Whether `line` of a display listing names a connected display: its second
/// word is `connected`.
pub open spec fn is_connected(line: Seq<char>) -> bool {
    words(line).len() >= 2 && words(line)[1] == "connected"@
}

/// The number of lines that name a connected display.
pub open spec fn connected_displays(lines: Seq<Seq<char>>) -> nat
    decreases lines.len(),
{
    if lines.len() == 0 {
        0
    } else {
        connected_displays(lines.drop_last()) + if is_connected(lines.last()) {
            1nat
        } else {
            0nat
        }
    }
}

/// The address that `line` of an address listing names: its second word, up
/// to the slash that starts the prefix length.
pub open spec fn address(line: Seq<char>) -> Seq<char>
    recommends
        words(line).len() >= 2,
{
    let word = words(line)[1];
    word.subrange(0, run_length(word, Run::Until('/')) as int)
}

/// Whether `line` of an address listing names an address that is to be
/// listed: the line starts, after its indentation, with `inet `, a second
/// word follows, and the address is not that of the loopback interface.
pub open spec fn is_listed(line: Seq<char>) -> bool {
    &&& has_prefix(trimmed(line), "inet "@)
    &&& words(line).len() >= 2
    &&& address(line) != "127.0.0.1"@
}

/// The addresses that the lines of an address listing name, in order.
pub open spec fn addresses(lines: Seq<Seq<char>>) -> Seq<Seq<char>>
    decreases lines.len(),
{
    if lines.len() == 0 {
        Seq::empty()
    } else {
        addresses(lines.drop_last()) + if is_listed(lines.last()) {
            seq![address(lines.last())]
        } else {
            Seq::empty()
        }
    }
}

/// Counts the connected displays in the output of `xrandr`.
pub fn get_number_displays(output: &str) -> (count: usize)
    ensures
        count == connected_displays(lines(output@)),
{
    let chars = chars_of(output);
    let all = split_lines(&chars);
    let mut count: usize = 0;
    let mut i: usize = 0;
    while i < all.len()
        invariant
            i <= all.len(),
            count <= i,
            count == connected_displays(rows(all@).subrange(0, i as int)),
        decreases all.len() - i,
    {
        let parts = split_words(&all[i]);
        let connected = parts.len() >= 2 && spells(&parts[1], "connected");
        proof {
            let upto = rows(all@).subrange(0, i + 1);
            assert(upto.drop_last() =~= rows(all@).subrange(0, i as int));
            assert(upto.last() == all@[i as int]@);
            assert(parts.len() >= 2 ==> rows(parts@)[1] == parts@[1]@);
        }
        if connected {
            count = count + 1;
        }
        i = i + 1;
    }
    assert(rows(all@).subrange(0, all.len() as int) =~= rows(all@));
    count
}

/// Lists the addresses in the output of `ip addr`, but for the loopback address.
pub fn get_ips(output: &str) -> (ips: Vec<String>)
    ensures
        texts(ips@) == addresses(lines(output@)),
{
    let chars = chars_of(output);
    let all = split_lines(&chars);
    let mut ips: Vec<String> = Vec::new();
    let mut i: usize = 0;
    assert(texts(ips@) =~= addresses(rows(all@).subrange(0, 0)));
    while i < all.len()
        invariant
            i <= all.len(),
            texts(ips@) == addresses(rows(all@).subrange(0, i as int)),
        decreases all.len() - i,
    {
        let ghost before = texts(ips@);
        let ghost upto = rows(all@).subrange(0, i + 1);
        proof {
            assert(upto.drop_last() =~= rows(all@).subrange(0, i as int));
            assert(upto.last() == all@[i as int]@);
        }
        let line = &all[i];
        let mut listed = false;
        if trimmed_starts_with(line, "inet ") {
            let parts = split_words(line);
            if parts.len() >= 2 {
                assert(rows(parts@)[1] == parts@[1]@);
                let word = &parts[1];
                let end = skip(word, 0, Run::Until('/'));
                let name = copy_range(word, 0, end);
                assert(word@.subrange(0, word.len() as int) =~= word@);
                assert(name@ == address(line@));
                if !spells(&name, "127.0.0.1") {
                    ips.push(string_of(&name));
                    listed = true;
                    assert(texts(ips@) =~= before + seq![address(line@)]);
                }
            }
        }
        assert(listed == is_listed(line@));
        assert(!listed ==> texts(ips@) =~= before + Seq::<Seq<char>>::empty());
        i = i + 1;
    }
    assert(rows(all@).subrange(0, all.len() as int) =~= rows(all@));
    ips
}

impl View for Info {
    type V = InfoView;

    open spec fn view(&self) -> InfoView {
        InfoView { ips: texts(self.ips@), number_displays: self.number_displays }
    }
}

impl Info {
    /// The machine's information, read from the output of `ip addr` and of `xrandr`.
    pub fn get(addresses: &str, displays: &str) -> (info: Info)
        ensures
            info@ == (InfoView {
                ips: self::addresses(lines(addresses@)),
                number_displays: connected_displays(lines(displays@)) as usize,
            }),
    {
        Info { ips: get_ips(addresses), number_displays: get_number_displays(displays) }
    }
}

impl Clone for Info {
    fn clone(&self) -> (copy: Info)
        ensures
            copy@ == self@,
    {
        let mut ips: Vec<String> = Vec::new();
        let mut i: usize = 0;
        while i < self.ips.len()
            invariant
                i <= self.ips.len(),
                ips.len() == i,
                forall|j: int| 0 <= j < i ==> ips@[j]@ == self.ips@[j]@,
            decreases self.ips.len() - i,
        {
            ips.push(self.ips[i].clone());
            i = i + 1;
        }
        let copy = Info { ips, number_displays: self.number_displays };
        assert(copy@.ips =~= self@.ips);
        copy
    }
}

} // verus!
