//! Which characters need quoting, and what a file name keeps of a text.

use vstd::prelude::*;
use crate::client::types;
use crate::remote::quote;
use crate::remote_registry::RemoteTargetSnapshot;
use crate::text;

verus! {

/// Whether a character means something to a shell other than itself, somewhere in a
/// word.
pub open spec fn is_special(c: char) -> bool {
    ||| text::is_white_space(c)
    ||| c == '\''
    ||| c == '"'
    ||| c == '\\'
    ||| c == '$'
    ||| c == '`'
    ||| c == ';'
    ||| c == '&'
    ||| c == '|'
    ||| c == '<'
    ||| c == '>'
    ||| c == '('
    ||| c == ')'
    ||| c == '{'
    ||| c == '}'
    ||| c == '['
    ||| c == ']'
    ||| c == '*'
    ||| c == '?'
    ||| c == '#'
    ||| c == '~'
    ||| c == '!'
    ||| c == '^'
}

/// A word that is left unquoted has no character that a shell treats specially, and is
/// not empty. A word of letters, digits and the usual signs of paths and addresses is
/// left as it is.
pub proof fn law_only_plain_words_stay_unquoted(s: Seq<char>, i: int)
    ensures
        quote::shell_word(s) == s && 0 <= i < s.len() && s[0] != '\'' ==> !is_special(s[i]),
        quote::shell_word(Seq::empty()).len() == 2,
        s.len() > 0 && (forall|k: int|
            0 <= k < s.len() ==> text::is_alphanumeric(#[trigger] s[k]) || s[k] == '/' || s[k]
                == '.' || s[k] == '-' || s[k] == '_' || s[k] == '@' || s[k] == ':')
            ==> quote::shell_word(s) == s,
{
    if quote::shell_word(s) == s && 0 <= i < s.len() && s[0] != '\'' {
        let quoted = seq!['\''] + quote::quoted_body(s) + seq!['\''];
        if !(s.len() > 0 && (forall|k: int|
            0 <= k < s.len() ==> quote::is_plain(#[trigger] s[k]))) {
            assert(quoted[0] == '\'');
            assert(false);
        }
        assert(quote::is_plain(s[i]));
    }
    if s.len() > 0 && (forall|k: int|
        0 <= k < s.len() ==> text::is_alphanumeric(#[trigger] s[k]) || s[k] == '/' || s[k] == '.'
            || s[k] == '-' || s[k] == '_' || s[k] == '@' || s[k] == ':') {
        assert forall|k: int| 0 <= k < s.len() implies quote::is_plain(#[trigger] s[k]) by {
            assert(text::is_alphanumeric(s[k]) || s[k] == '/' || s[k] == '.' || s[k] == '-' || s[k]
                == '_' || s[k] == '@' || s[k] == ':');
        }
    }
}

/// A file name keeps a text that is short and made of letters, digits, dots,
/// underscores and inner dashes.
pub proof fn law_plain_names_are_kept(s: Seq<char>)
    requires
        0 < s.len() <= 32,
        forall|k: int|
            0 <= k < s.len() ==> text::is_alphanumeric(#[trigger] s[k]) || s[k] == '.' || s[k]
                == '_' || s[k] == '-',
        s[0] != '-',
        s.last() != '-',
    ensures
        quote::component(s) == s,
{
    assert forall|k: int| 0 <= k < s.len() implies quote::is_name_char(#[trigger] s[k]) by {
        assert(text::is_alphanumeric(s[k]) || s[k] == '.' || s[k] == '_' || s[k] == '-');
    }
    assert(quote::dashed(s) =~= s);
}

/// Every other character becomes a dash.
pub proof fn law_other_characters_become_dashes(s: Seq<char>, i: int)
    requires
        0 <= i < s.len(),
    ensures
        quote::dashed(s).len() == s.len(),
        text::is_alphanumeric(s[i]) || s[i] == '.' || s[i] == '_' || s[i] == '-' ==> quote::dashed(
            s,
        )[i] == s[i],
        !(text::is_alphanumeric(s[i]) || s[i] == '.' || s[i] == '_' || s[i] == '-')
            ==> quote::dashed(s)[i] == '-',
        forall|n: nat|
            n >= s.len() ==> #[trigger] quote::at_most(s, n) == s,
        forall|n: nat|
            n < s.len() ==> (#[trigger] quote::at_most(s, n)).len() == n && (0 <= i < n
                ==> quote::at_most(s, n)[i] == s[i]),
{
}

/// The target of a remote on record is taken over as it is.
pub proof fn law_targets_are_taken_over(target: RemoteTargetSnapshot)
    ensures
        types::target_of_record(target)@ == target@,
{
}

} // verus!
