//! Text of numbers and names.

use vstd::prelude::*;
use vstd::string::*;

verus! {

/// The character of a digit.
pub open spec fn digit(value: nat) -> char {
    if value == 0 {
        '0'
    } else if value == 1 {
        '1'
    } else if value == 2 {
        '2'
    } else if value == 3 {
        '3'
    } else if value == 4 {
        '4'
    } else if value == 5 {
        '5'
    } else if value == 6 {
        '6'
    } else if value == 7 {
        '7'
    } else if value == 8 {
        '8'
    } else {
        '9'
    }
}

/// The decimal digits of a number.
pub open spec fn decimal(value: nat) -> Seq<char>
    decreases value,
{
    if value < 10 {
        seq![digit(value)]
    } else {
        decimal(value / 10).push(digit(value % 10))
    }
}

/// The text of a digit.
fn digit_text(value: u32) -> (text: &'static str)
    requires
        value < 10,
    ensures
        text@ == seq![digit(value as nat)],
{
    proof {
        reveal_strlit("0");
        reveal_strlit("1");
        reveal_strlit("2");
        reveal_strlit("3");
        reveal_strlit("4");
        reveal_strlit("5");
        reveal_strlit("6");
        reveal_strlit("7");
        reveal_strlit("8");
        reveal_strlit("9");
    }
    let text: &'static str = match value {
        0 => "0",
        1 => "1",
        2 => "2",
        3 => "3",
        4 => "4",
        5 => "5",
        6 => "6",
        7 => "7",
        8 => "8",
        _ => "9",
    };
    assert(text@ =~= seq![digit(value as nat)]);
    text
}

/// The decimal text of a number.
pub fn decimal_text(value: u32) -> (text: String)
    ensures
        text@ == decimal(value as nat),
    decreases value,
{
    if value < 10 {
        return String::from_str(digit_text(value));
    }
    let mut text = decimal_text(value / 10);
    text.append(digit_text(value % 10));
    assert(text@ =~= decimal(value as nat));
    text
}

/// The texts of some names.
pub open spec fn texts(names: Seq<String>) -> Seq<Seq<char>> {
    names.map_values(|name: String| name@)
}

/// The texts of some borrowed names.
pub open spec fn str_texts(names: Seq<&'static str>) -> Seq<Seq<char>> {
    names.map_values(|name: &'static str| name@)
}

/// A list of names followed by others, but for those that are in it already.
pub open spec fn joined(names: Seq<Seq<char>>, others: Seq<Seq<char>>) -> Seq<Seq<char>>
    decreases others.len(),
{
    if others.len() == 0 {
        names
    } else {
        let before = joined(names, others.drop_last());
        if before.contains(others.last()) {
            before
        } else {
            before.push(others.last())
        }
    }
}

/// A joined list has the names of both, each once where the first list has each once.
pub proof fn lemma_joined(names: Seq<Seq<char>>, others: Seq<Seq<char>>)
    ensures
        forall|name: Seq<char>| #[trigger]
            joined(names, others).contains(name) <==> names.contains(name) || others.contains(name),
        names.no_duplicates() ==> joined(names, others).no_duplicates(),
    decreases others.len(),
{
    if others.len() > 0 {
        let some = others.drop_last();
        let last = others.last();
        lemma_joined(names, some);
        let before = joined(names, some);
        let after = joined(names, others);
        assert forall|name: Seq<char>| #[trigger] after.contains(name) <==> names.contains(name)
            || others.contains(name) by {
            if before.contains(name) {
                let i = choose|i: int| 0 <= i < before.len() && before[i] == name;
                assert(after[i] == name);
            }
            if some.contains(name) {
                let i = choose|i: int| 0 <= i < some.len() && some[i] == name;
                assert(others[i] == name);
            }
            if others.contains(name) {
                let i = choose|i: int| 0 <= i < others.len() && others[i] == name;
                if i < some.len() {
                    assert(some[i] == name);
                    assert(some.contains(name));
                } else if !before.contains(name) {
                    assert(after[before.len() as int] == name);
                }
            }
            if after.contains(name) {
                let i = choose|i: int| 0 <= i < after.len() && after[i] == name;
                if i < before.len() {
                    assert(before[i] == name);
                    assert(before.contains(name));
                } else {
                    assert(others[others.len() - 1] == name);
                }
            }
        }
    }
}

/// Whether a list has a name.
pub fn has_name(names: &Vec<String>, name: &String) -> (has: bool)
    ensures
        has == texts(names@).contains(name@),
{
    let mut index: usize = 0;
    while index < names.len()
        invariant
            index <= names@.len(),
            forall|i: int| 0 <= i < index ==> (#[trigger] names@[i])@ != name@,
        decreases names@.len() - index,
    {
        if names[index] == *name {
            assert(texts(names@)[index as int] == name@);
            return true;
        }
        index += 1;
    }
    assert forall|i: int| 0 <= i < texts(names@).len() implies texts(names@)[i] != name@ by {
        assert(names@[i]@ != name@);
    }
    false
}

/// Appends names, but for those that are in the list already.
pub fn join_names(names: &mut Vec<String>, others: &[&'static str])
    ensures
        texts(final(names)@) == joined(texts(old(names)@), str_texts(others@)),
{
    let ghost start = texts(names@);
    let mut index: usize = 0;
    assert(str_texts(others@.take(0)) =~= seq![]);
    while index < others.len()
        invariant
            index <= others@.len(),
            start == texts(old(names)@),
            texts(names@) == joined(start, str_texts(others@.take(index as int))),
        decreases others@.len() - index,
    {
        let name = others[index].to_owned();
        let ghost before = names@;
        proof {
            let now = str_texts(others@.take(index + 1));
            assert(now.drop_last() =~= str_texts(others@.take(index as int)));
            assert(now.last() == name@);
        }
        if !has_name(names, &name) {
            names.push(name);
            assert(texts(names@) =~= texts(before).push(name@));
        }
        index += 1;
    }
    assert(others@.take(index as int) =~= others@);
}

/// Copies names.
pub fn copy_names(names: &[&'static str]) -> (copied: Vec<String>)
    ensures
        texts(copied@) == str_texts(names@),
{
    let mut copied: Vec<String> = Vec::new();
    let mut index: usize = 0;
    while index < names.len()
        invariant
            index <= names@.len(),
            texts(copied@) == str_texts(names@.take(index as int)),
        decreases names@.len() - index,
    {
        let name = names[index].to_owned();
        let ghost before = copied@;
        copied.push(name);
        proof {
            assert(texts(copied@) =~= texts(before).push(name@));
            assert(str_texts(names@.take(index + 1)) =~= str_texts(names@.take(index as int)).push(
                name@,
            ));
        }
        index += 1;
    }
    assert(names@.take(index as int) =~= names@);
    copied
}

/// The number that digits stand for.
pub open spec fn number_of(digits: Seq<char>) -> int
    decreases digits.len(),
{
    if digits.len() == 0 {
        0
    } else {
        number_of(digits.drop_last()) * 10 + (digits.last() as int - '0' as int)
    }
}

/// The decimal text of a number is made of digits, does not start with a needless zero, and reads
/// back as the number.
pub proof fn decimals_read_back(value: nat)
    ensures
        number_of(decimal(value)) == value,
        decimal(value).len() > 0,
        forall|i: int|
            0 <= i < decimal(value).len() ==> '0' as int <= (#[trigger] decimal(value)[i]) as int
                <= '9' as int,
        value > 0 ==> decimal(value)[0] != '0',
    decreases value,
{
    let digits = decimal(value);
    if value >= 10 {
        decimals_read_back(value / 10);
        assert(digits.drop_last() =~= decimal(value / 10));
        assert(digits.last() == digit(value % 10));
    } else {
        assert(digits.drop_last() =~= Seq::<char>::empty());
        assert(number_of(Seq::<char>::empty()) == 0);
        assert(digits.last() == digit(value));
    }
}

/// Names that are joined to a list stand behind those of the list.
pub proof fn joined_names_come_last(names: Seq<Seq<char>>, others: Seq<Seq<char>>)
    ensures
        names.is_prefix_of(joined(names, others)),
    decreases others.len(),
{
    if others.len() > 0 {
        joined_names_come_last(names, others.drop_last());
        let before = joined(names, others.drop_last());
        assert(before.take(names.len() as int) =~= names);
        assert(joined(names, others).take(names.len() as int) =~= names);
    }
}

} // verus!
