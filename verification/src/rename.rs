//! Case conventions for renaming types, enum items and fields.

use vstd::prelude::*;

verus! {

use crate::codec::push_char;
use vstd::string::StrSliceExecFns;

/// Whether a character is an ASCII upper-case letter.
pub open spec fn is_upper_char(c: char) -> bool {
    65 <= c as u32 && c as u32 <= 90
}

/// The lower-case form of an ASCII letter; any other character is kept.
pub open spec fn lower_char(c: char) -> char {
    if c == 'A' {
        'a'
    } else if c == 'B' {
        'b'
    } else if c == 'C' {
        'c'
    } else if c == 'D' {
        'd'
    } else if c == 'E' {
        'e'
    } else if c == 'F' {
        'f'
    } else if c == 'G' {
        'g'
    } else if c == 'H' {
        'h'
    } else if c == 'I' {
        'i'
    } else if c == 'J' {
        'j'
    } else if c == 'K' {
        'k'
    } else if c == 'L' {
        'l'
    } else if c == 'M' {
        'm'
    } else if c == 'N' {
        'n'
    } else if c == 'O' {
        'o'
    } else if c == 'P' {
        'p'
    } else if c == 'Q' {
        'q'
    } else if c == 'R' {
        'r'
    } else if c == 'S' {
        's'
    } else if c == 'T' {
        't'
    } else if c == 'U' {
        'u'
    } else if c == 'V' {
        'v'
    } else if c == 'W' {
        'w'
    } else if c == 'X' {
        'x'
    } else if c == 'Y' {
        'y'
    } else if c == 'Z' {
        'z'
    } else {
        c
    }
}

/// The upper-case form of an ASCII letter; any other character is kept.
pub open spec fn upper_char(c: char) -> char {
    if c == 'a' {
        'A'
    } else if c == 'b' {
        'B'
    } else if c == 'c' {
        'C'
    } else if c == 'd' {
        'D'
    } else if c == 'e' {
        'E'
    } else if c == 'f' {
        'F'
    } else if c == 'g' {
        'G'
    } else if c == 'h' {
        'H'
    } else if c == 'i' {
        'I'
    } else if c == 'j' {
        'J'
    } else if c == 'k' {
        'K'
    } else if c == 'l' {
        'L'
    } else if c == 'm' {
        'M'
    } else if c == 'n' {
        'N'
    } else if c == 'o' {
        'O'
    } else if c == 'p' {
        'P'
    } else if c == 'q' {
        'Q'
    } else if c == 'r' {
        'R'
    } else if c == 's' {
        'S'
    } else if c == 't' {
        'T'
    } else if c == 'u' {
        'U'
    } else if c == 'v' {
        'V'
    } else if c == 'w' {
        'W'
    } else if c == 'x' {
        'X'
    } else if c == 'y' {
        'Y'
    } else if c == 'z' {
        'Z'
    } else {
        c
    }
}

/// Map one character to lower case.
pub fn to_lower_char(c: char) -> (r: char)
    ensures
        r == lower_char(c),
{
    if c == 'A' {
        'a'
    } else if c == 'B' {
        'b'
    } else if c == 'C' {
        'c'
    } else if c == 'D' {
        'd'
    } else if c == 'E' {
        'e'
    } else if c == 'F' {
        'f'
    } else if c == 'G' {
        'g'
    } else if c == 'H' {
        'h'
    } else if c == 'I' {
        'i'
    } else if c == 'J' {
        'j'
    } else if c == 'K' {
        'k'
    } else if c == 'L' {
        'l'
    } else if c == 'M' {
        'm'
    } else if c == 'N' {
        'n'
    } else if c == 'O' {
        'o'
    } else if c == 'P' {
        'p'
    } else if c == 'Q' {
        'q'
    } else if c == 'R' {
        'r'
    } else if c == 'S' {
        's'
    } else if c == 'T' {
        't'
    } else if c == 'U' {
        'u'
    } else if c == 'V' {
        'v'
    } else if c == 'W' {
        'w'
    } else if c == 'X' {
        'x'
    } else if c == 'Y' {
        'y'
    } else if c == 'Z' {
        'z'
    } else {
        c
    }
}

/// Map one character to upper case.
pub fn to_upper_char(c: char) -> (r: char)
    ensures
        r == upper_char(c),
{
    if c == 'a' {
        'A'
    } else if c == 'b' {
        'B'
    } else if c == 'c' {
        'C'
    } else if c == 'd' {
        'D'
    } else if c == 'e' {
        'E'
    } else if c == 'f' {
        'F'
    } else if c == 'g' {
        'G'
    } else if c == 'h' {
        'H'
    } else if c == 'i' {
        'I'
    } else if c == 'j' {
        'J'
    } else if c == 'k' {
        'K'
    } else if c == 'l' {
        'L'
    } else if c == 'm' {
        'M'
    } else if c == 'n' {
        'N'
    } else if c == 'o' {
        'O'
    } else if c == 'p' {
        'P'
    } else if c == 'q' {
        'Q'
    } else if c == 'r' {
        'R'
    } else if c == 's' {
        'S'
    } else if c == 't' {
        'T'
    } else if c == 'u' {
        'U'
    } else if c == 'v' {
        'V'
    } else if c == 'w' {
        'W'
    } else if c == 'x' {
        'X'
    } else if c == 'y' {
        'Y'
    } else if c == 'z' {
        'Z'
    } else {
        c
    }
}


/// All letters lowered; separators kept.
pub open spec fn lowercase_of(s: Seq<char>) -> Seq<char>
    decreases s.len(),
{
    if s.len() == 0 {
        Seq::empty()
    } else {
        lowercase_of(s.drop_last()).push(lower_char(s.last()))
    }
}

/// All letters raised; separators kept.
pub open spec fn uppercase_of(s: Seq<char>) -> Seq<char>
    decreases s.len(),
{
    if s.len() == 0 {
        Seq::empty()
    } else {
        uppercase_of(s.drop_last()).push(upper_char(s.last()))
    }
}

/// snake_case: an upper-case letter after anything but a separator starts
/// a new word; every letter is lowered.
pub open spec fn snake_of(s: Seq<char>) -> Seq<char>
    decreases s.len(),
{
    if s.len() == 0 {
        Seq::empty()
    } else {
        let rest = snake_of(s.drop_last());
        let c = s.last();
        if is_upper_char(c) && s.len() > 1 && s[s.len() - 2] != '_' {
            rest + seq!['_', lower_char(c)]
        } else {
            rest.push(lower_char(c))
        }
    }
}

/// SCREAMING_SNAKE_CASE: word boundaries as in snake_case; every letter
/// is raised.
pub open spec fn screaming_of(s: Seq<char>) -> Seq<char>
    decreases s.len(),
{
    if s.len() == 0 {
        Seq::empty()
    } else {
        let rest = screaming_of(s.drop_last());
        let c = s.last();
        if is_upper_char(c) && s.len() > 1 && s[s.len() - 2] != '_' {
            rest + seq!['_', c]
        } else {
            rest.push(upper_char(c))
        }
    }
}

/// camelCase: separators dropped, the first character lowered, a character
/// after a separator raised, everything else kept.
pub open spec fn camel_of(s: Seq<char>) -> Seq<char>
    decreases s.len(),
{
    if s.len() == 0 {
        Seq::empty()
    } else {
        let rest = camel_of(s.drop_last());
        let c = s.last();
        if c == '_' {
            rest
        } else if s.len() == 1 {
            rest.push(lower_char(c))
        } else if s[s.len() - 2] == '_' {
            rest.push(upper_char(c))
        } else {
            rest.push(c)
        }
    }
}

/// PascalCase: separators dropped, the first character and any character
/// after a separator raised, everything else kept.
pub open spec fn pascal_of(s: Seq<char>) -> Seq<char>
    decreases s.len(),
{
    if s.len() == 0 {
        Seq::empty()
    } else {
        let rest = pascal_of(s.drop_last());
        let c = s.last();
        if c == '_' {
            rest
        } else if s.len() == 1 {
            rest.push(upper_char(c))
        } else if s[s.len() - 2] == '_' {
            rest.push(upper_char(c))
        } else {
            rest.push(c)
        }
    }
}

/// A case convention for renaming.
#[derive(Debug, Copy, Clone, PartialEq, Eq, Structural)]
pub enum RenameRule {
    Lower,
    Upper,
    Pascal,
    Camel,
    Snake,
    ScreamingSnake,
}

/// What each convention does to a name.
pub open spec fn spec_rename(rule: RenameRule, s: Seq<char>) -> Seq<char> {
    match rule {
        RenameRule::Lower => lowercase_of(s),
        RenameRule::Upper => uppercase_of(s),
        RenameRule::Pascal => pascal_of(s),
        RenameRule::Camel => camel_of(s),
        RenameRule::Snake => snake_of(s),
        RenameRule::ScreamingSnake => screaming_of(s),
    }
}

impl RenameRule {
    /// Rename a name according to this convention.
    pub fn rename(&self, name: &str) -> (r: String)
        ensures
            r@ == spec_rename(*self, name@),
    {
        let n = name.unicode_len();
        let mut out = String::new();
        let mut i: usize = 0;
        proof {
            assert(name@.take(0) =~= Seq::<char>::empty());
        }
        while i < n
            invariant
                i <= n,
                n == name@.len(),
                out@ == spec_rename(*self, name@.take(i as int)),
            decreases n - i,
        {
            let c = name.get_char(i);
            let ghost pre = name@.take(i as int);
            let ghost pre2 = name@.take(i as int + 1);
            proof {
                assert(pre2.drop_last() =~= pre);
                assert(pre2.last() == name@[i as int]);
            }
            match self {
                RenameRule::Lower => {
                    push_char(&mut out, to_lower_char(c));
                },
                RenameRule::Upper => {
                    push_char(&mut out, to_upper_char(c));
                },
                RenameRule::Snake => {
                    if 65 <= c as u32 && c as u32 <= 90 && i > 0 && name.get_char(i - 1) != '_' {
                        push_char(&mut out, '_');
                        push_char(&mut out, to_lower_char(c));
                        proof {
                            assert(out@ =~= spec_rename(*self, pre2));
                        }
                    } else {
                        push_char(&mut out, to_lower_char(c));
                    }
                },
                RenameRule::ScreamingSnake => {
                    if 65 <= c as u32 && c as u32 <= 90 && i > 0 && name.get_char(i - 1) != '_' {
                        push_char(&mut out, '_');
                        push_char(&mut out, c);
                        proof {
                            assert(out@ =~= spec_rename(*self, pre2));
                        }
                    } else {
                        push_char(&mut out, to_upper_char(c));
                    }
                },
                RenameRule::Camel => {
                    if c == '_' {
                    } else if i == 0 {
                        push_char(&mut out, to_lower_char(c));
                    } else if name.get_char(i - 1) == '_' {
                        push_char(&mut out, to_upper_char(c));
                    } else {
                        push_char(&mut out, c);
                    }
                },
                RenameRule::Pascal => {
                    if c == '_' {
                    } else if i == 0 {
                        push_char(&mut out, to_upper_char(c));
                    } else if name.get_char(i - 1) == '_' {
                        push_char(&mut out, to_upper_char(c));
                    } else {
                        push_char(&mut out, c);
                    }
                },
            }
            i = i + 1;
        }
        proof {
            assert(name@.take(n as int) =~= name@);
        }
        out
    }
}

/// What kind of element a name belongs to; each kind has its own default
/// convention.
#[derive(Debug, Copy, Clone, PartialEq, Eq, Structural)]
pub enum RenameTarget {
    Type,
    EnumItem,
    Field,
}

/// The default convention of each element kind.
pub open spec fn spec_target_rule(t: RenameTarget) -> RenameRule {
    match t {
        RenameTarget::Type => RenameRule::Pascal,
        RenameTarget::EnumItem => RenameRule::ScreamingSnake,
        RenameTarget::Field => RenameRule::Camel,
    }
}

impl RenameTarget {
    /// The default convention of this element kind.
    pub fn rule(&self) -> (r: RenameRule)
        ensures
            r == spec_target_rule(*self),
    {
        match self {
            RenameTarget::Type => RenameRule::Pascal,
            RenameTarget::EnumItem => RenameRule::ScreamingSnake,
            RenameTarget::Field => RenameRule::Camel,
        }
    }

    /// Rename a name with this kind's default convention.
    pub fn rename(&self, name: &str) -> (r: String)
        ensures
            r@ == spec_rename(spec_target_rule(*self), name@),
    {
        let rule = self.rule();
        rule.rename(name)
    }
}

} // verus!
