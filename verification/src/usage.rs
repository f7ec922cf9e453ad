//! Key usage and extended key usage purposes, and their textual form in
//! certificate extensions: each purpose has a name, and a list of purposes
//! is written as the names joined by commas.
use vstd::prelude::*;

verus! {

/// A value that has a fixed textual name.
pub trait AsStr {
    /// The name of the value.
    spec fn name(&self) -> Seq<char>;

    /// Returns the name of the value.
    fn as_str(&self) -> (s: &'static str)
        ensures
            s@ == self.name(),
    ;
}

/// A list of values that can be written as one string.
pub trait ToStr {
    /// The string that represents the list.
    spec fn text(&self) -> Seq<char>;

    /// Returns the string that represents the list.
    fn to_str(&self) -> (s: String)
        ensures
            s@ == self.text(),
    ;
}

/// Purposes of the key in a certificate (the keyUsage extension).
#[derive(Clone, Copy, Debug, PartialEq, Eq, Structural)]
pub enum KeyUsage {
    DigitalSignature,
    NonRepudiation,
    KeyEncipherment,
    DataEncipherment,
    KeyAgreement,
    KeyCertSign,
    CRLSign,
    EncipherOnly,
    DecipherOnly,
}

impl AsStr for KeyUsage {
    open spec fn name(&self) -> Seq<char> {
        match self {
            KeyUsage::DigitalSignature => "digitalSignature"@,
            KeyUsage::NonRepudiation => "nonRepudiation"@,
            KeyUsage::KeyEncipherment => "keyEncipherment"@,
            KeyUsage::DataEncipherment => "dataEncipherment"@,
            KeyUsage::KeyAgreement => "keyAgreement"@,
            KeyUsage::KeyCertSign => "keyCertSign"@,
            KeyUsage::CRLSign => "cRLSign"@,
            KeyUsage::EncipherOnly => "encipherOnly"@,
            KeyUsage::DecipherOnly => "decipherOnly"@,
        }
    }

    fn as_str(&self) -> (s: &'static str) {
        match self {
            KeyUsage::DigitalSignature => "digitalSignature",
            KeyUsage::NonRepudiation => "nonRepudiation",
            KeyUsage::KeyEncipherment => "keyEncipherment",
            KeyUsage::DataEncipherment => "dataEncipherment",
            KeyUsage::KeyAgreement => "keyAgreement",
            KeyUsage::KeyCertSign => "keyCertSign",
            KeyUsage::CRLSign => "cRLSign",
            KeyUsage::EncipherOnly => "encipherOnly",
            KeyUsage::DecipherOnly => "decipherOnly",
        }
    }
}

/// Purposes for which a certified key may be used (the extendedKeyUsage extension).
#[derive(Clone, Copy, Debug, PartialEq, Eq, Structural)]
pub enum ExtKeyUsage {
    ServerAuth,
    ClientAuth,
    CodeSigning,
    EmailProtection,
    TimeStamping,
    MsCodeInd,
    MsCodeCom,
    MsCtlSign,
    MsSgc,
    MsEfs,
    NsSgc,
}

impl AsStr for ExtKeyUsage {
    open spec fn name(&self) -> Seq<char> {
        match self {
            ExtKeyUsage::ServerAuth => "serverAuth"@,
            ExtKeyUsage::ClientAuth => "clientAuth"@,
            ExtKeyUsage::CodeSigning => "codeSigning"@,
            ExtKeyUsage::EmailProtection => "emailProtection"@,
            ExtKeyUsage::TimeStamping => "timeStamping"@,
            ExtKeyUsage::MsCodeInd => "msCodeInd"@,
            ExtKeyUsage::MsCodeCom => "msCodeCom"@,
            ExtKeyUsage::MsCtlSign => "msCTLSign"@,
            ExtKeyUsage::MsSgc => "msSGC"@,
            ExtKeyUsage::MsEfs => "msEFS"@,
            ExtKeyUsage::NsSgc => "nsSGC"@,
        }
    }

    fn as_str(&self) -> (s: &'static str) {
        match self {
            ExtKeyUsage::ServerAuth => "serverAuth",
            ExtKeyUsage::ClientAuth => "clientAuth",
            ExtKeyUsage::CodeSigning => "codeSigning",
            ExtKeyUsage::EmailProtection => "emailProtection",
            ExtKeyUsage::TimeStamping => "timeStamping",
            ExtKeyUsage::MsCodeInd => "msCodeInd",
            ExtKeyUsage::MsCodeCom => "msCodeCom",
            ExtKeyUsage::MsCtlSign => "msCTLSign",
            ExtKeyUsage::MsSgc => "msSGC",
            ExtKeyUsage::MsEfs => "msEFS",
            ExtKeyUsage::NsSgc => "nsSGC",
        }
    }
}

/// The words of `words` joined by single commas: empty for no words, the
/// word itself for one word.
pub open spec fn join_commas(words: Seq<Seq<char>>) -> Seq<char>
    decreases words.len(),
{
    if words.len() == 0 {
        seq![]
    } else if words.len() == 1 {
        words[0]
    } else {
        join_commas(words.drop_last()) + seq![','] + words.last()
    }
}

/// The names of the values of `items`, in order.
pub open spec fn names<T: AsStr>(items: Seq<T>) -> Seq<Seq<char>> {
    items.map_values(|item: T| item.name())
}

impl<T: AsStr> ToStr for Vec<T> {
    open spec fn text(&self) -> Seq<char> {
        join_commas(names(self@))
    }

    fn to_str(&self) -> (s: String) {
        let mut acc = String::new();
        let n = self.len();
        let ghost words = names(self@);
        for idx in 0..n
            invariant
                n == self@.len(),
                words == names(self@),
                acc@ == join_commas(words.take(idx as int)),
        {
            let name = self[idx].as_str();
            if idx > 0 {
                acc.append(",");
            }
            acc.append(name);
            proof {
                reveal_strlit(",");
                assert(words.take(idx + 1).drop_last() =~= words.take(idx as int));
                assert(words.take(idx + 1).last() == words[idx as int]);
                if idx == 0 {
                    assert(acc@ =~= words.take(1)[0]);
                }
            }
        }
        proof {
            assert(words.take(n as int) =~= words);
        }
        acc
    }
}


/// A word that can stand in a comma-separated list: not empty, and without a comma.
pub open spec fn is_list_word(w: Seq<char>) -> bool {
    w.len() > 0 && !w.contains(',')
}

/// Every word of `words` can stand in a comma-separated list.
pub open spec fn all_list_words(words: Seq<Seq<char>>) -> bool {
    forall|i: int| 0 <= i < words.len() ==> is_list_word(#[trigger] words[i])
}

/// How the number of words shows in the joined text: no text for no words,
/// no comma for one word, a comma for two or more.
proof fn lemma_join_shape(words: Seq<Seq<char>>)
    requires
        all_list_words(words),
    ensures
        words.len() == 0 ==> join_commas(words).len() == 0,
        words.len() >= 1 ==> join_commas(words).len() > 0,
        words.len() == 1 ==> !join_commas(words).contains(','),
        words.len() >= 2 ==> join_commas(words).contains(','),
    decreases words.len(),
{
    if words.len() == 1 {
        assert(is_list_word(words[0]));
    } else if words.len() >= 2 {
        let front = words.drop_last();
        assert(all_list_words(front)) by {
            assert forall|i: int| 0 <= i < front.len() implies is_list_word(#[trigger] front[i]) by {
                assert(front[i] == words[i]);
            }
        }
        lemma_join_shape(front);
        let j = join_commas(words);
        let head = join_commas(front);
        assert(j == head + seq![','] + words.last());
        assert(j[head.len() as int] == ',');
    }
}

/// Where text ends in a comma and a comma-free word, both the word and the
/// text before it are determined by the text.
proof fn lemma_split_at_last_comma(a1: Seq<char>, l1: Seq<char>, a2: Seq<char>, l2: Seq<char>)
    requires
        a1 + seq![','] + l1 == a2 + seq![','] + l2,
        !l1.contains(','),
        !l2.contains(','),
    ensures
        a1 == a2,
        l1 == l2,
{
    let s = a1 + seq![','] + l1;
    let t = a2 + seq![','] + l2;
    assert(s.len() == a1.len() + 1 + l1.len());
    assert(t.len() == a2.len() + 1 + l2.len());
    if l1.len() < l2.len() {
        let k = a1.len() as int;
        assert(s[k] == ',');
        assert(t[k] == l2[k - a2.len() - 1]);
        assert(l2.contains(','));
    } else if l2.len() < l1.len() {
        let k = a2.len() as int;
        assert(t[k] == ',');
        assert(s[k] == l1[k - a1.len() - 1]);
        assert(l1.contains(','));
    }
    assert(a1.len() == a2.len());
    assert forall|i: int| 0 <= i < a1.len() implies a1[i] == a2[i] by {
        assert(s[i] == a1[i]);
        assert(t[i] == a2[i]);
    }
    assert forall|i: int| 0 <= i < l1.len() implies l1[i] == l2[i] by {
        assert(s[a1.len() + 1 + i] == l1[i]);
        assert(t[a2.len() + 1 + i] == l2[i]);
    }
    assert(a1 =~= a2);
    assert(l1 =~= l2);
}

/// Joining words that are not empty and hold no comma loses nothing: the
/// joined text determines the words.
pub proof fn lemma_join_commas_injective(w1: Seq<Seq<char>>, w2: Seq<Seq<char>>)
    requires
        all_list_words(w1),
        all_list_words(w2),
        join_commas(w1) == join_commas(w2),
    ensures
        w1 == w2,
    decreases w1.len(),
{
    lemma_join_shape(w1);
    lemma_join_shape(w2);
    if w1.len() == 0 {
        assert(w2.len() == 0);
        assert(w1 =~= w2);
    } else if w1.len() == 1 {
        assert(w2.len() == 1);
        assert(w1 =~= w2);
    } else {
        assert(w2.len() >= 2);
        let f1 = w1.drop_last();
        let f2 = w2.drop_last();
        assert(is_list_word(w1[w1.len() - 1]));
        assert(is_list_word(w2[w2.len() - 1]));
        lemma_split_at_last_comma(join_commas(f1), w1.last(), join_commas(f2), w2.last());
        assert(all_list_words(f1)) by {
            assert forall|i: int| 0 <= i < f1.len() implies is_list_word(#[trigger] f1[i]) by {
                assert(f1[i] == w1[i]);
            }
        }
        assert(all_list_words(f2)) by {
            assert forall|i: int| 0 <= i < f2.len() implies is_list_word(#[trigger] f2[i]) by {
                assert(f2[i] == w2[i]);
            }
        }
        lemma_join_commas_injective(f1, f2);
        assert(w1 =~= f1.push(w1.last()));
        assert(w2 =~= f2.push(w2.last()));
    }
}

/// The length and some letters of each key usage name, and that each name
/// can stand in a comma-separated list.
proof fn lemma_key_usage_name_letters()
    ensures
        forall|k: KeyUsage| #[trigger] is_list_word(k.name()),
        KeyUsage::DigitalSignature.name().len() == 16
            && KeyUsage::DigitalSignature.name()[0] == 'd'
            && KeyUsage::DigitalSignature.name()[1] == 'i',
        KeyUsage::NonRepudiation.name().len() == 14
            && KeyUsage::NonRepudiation.name()[0] == 'n'
            && KeyUsage::NonRepudiation.name()[1] == 'o',
        KeyUsage::KeyEncipherment.name().len() == 15
            && KeyUsage::KeyEncipherment.name()[0] == 'k'
            && KeyUsage::KeyEncipherment.name()[1] == 'e',
        KeyUsage::DataEncipherment.name().len() == 16
            && KeyUsage::DataEncipherment.name()[0] == 'd'
            && KeyUsage::DataEncipherment.name()[1] == 'a',
        KeyUsage::KeyAgreement.name().len() == 12
            && KeyUsage::KeyAgreement.name()[0] == 'k'
            && KeyUsage::KeyAgreement.name()[1] == 'e',
        KeyUsage::KeyCertSign.name().len() == 11
            && KeyUsage::KeyCertSign.name()[0] == 'k'
            && KeyUsage::KeyCertSign.name()[1] == 'e',
        KeyUsage::CRLSign.name().len() == 7
            && KeyUsage::CRLSign.name()[0] == 'c'
            && KeyUsage::CRLSign.name()[1] == 'R',
        KeyUsage::EncipherOnly.name().len() == 12
            && KeyUsage::EncipherOnly.name()[0] == 'e'
            && KeyUsage::EncipherOnly.name()[1] == 'n',
        KeyUsage::DecipherOnly.name().len() == 12
            && KeyUsage::DecipherOnly.name()[0] == 'd'
            && KeyUsage::DecipherOnly.name()[1] == 'e',
{
    reveal_strlit("digitalSignature");
    reveal_strlit("nonRepudiation");
    reveal_strlit("keyEncipherment");
    reveal_strlit("dataEncipherment");
    reveal_strlit("keyAgreement");
    reveal_strlit("keyCertSign");
    reveal_strlit("cRLSign");
    reveal_strlit("encipherOnly");
    reveal_strlit("decipherOnly");
}

/// Every key usage name can stand in a comma-separated list.
pub proof fn lemma_key_usage_name_is_list_word(k: KeyUsage)
    ensures
        is_list_word(k.name()),
{
    lemma_key_usage_name_letters();
}

/// Different key usages have different names.
pub proof fn lemma_key_usage_name_injective(a: KeyUsage, b: KeyUsage)
    requires
        a.name() == b.name(),
    ensures
        a == b,
{
    lemma_key_usage_name_letters();
    assert(a.name().len() == b.name().len());
    assert(a.name()[0] == b.name()[0]);
    assert(a.name()[1] == b.name()[1]);
}

/// The length and some letters of each extended key usage name, and that each name
/// can stand in a comma-separated list.
proof fn lemma_ext_key_usage_name_letters()
    ensures
        forall|k: ExtKeyUsage| #[trigger] is_list_word(k.name()),
        ExtKeyUsage::ServerAuth.name().len() == 10
            && ExtKeyUsage::ServerAuth.name()[0] == 's'
            && ExtKeyUsage::ServerAuth.name()[2] == 'r'
            && ExtKeyUsage::ServerAuth.name()[3] == 'v'
            && ExtKeyUsage::ServerAuth.name()[6] == 'A',
        ExtKeyUsage::ClientAuth.name().len() == 10
            && ExtKeyUsage::ClientAuth.name()[0] == 'c'
            && ExtKeyUsage::ClientAuth.name()[2] == 'i'
            && ExtKeyUsage::ClientAuth.name()[3] == 'e'
            && ExtKeyUsage::ClientAuth.name()[6] == 'A',
        ExtKeyUsage::CodeSigning.name().len() == 11
            && ExtKeyUsage::CodeSigning.name()[0] == 'c'
            && ExtKeyUsage::CodeSigning.name()[2] == 'd'
            && ExtKeyUsage::CodeSigning.name()[3] == 'e'
            && ExtKeyUsage::CodeSigning.name()[6] == 'g',
        ExtKeyUsage::EmailProtection.name().len() == 15
            && ExtKeyUsage::EmailProtection.name()[0] == 'e'
            && ExtKeyUsage::EmailProtection.name()[2] == 'a'
            && ExtKeyUsage::EmailProtection.name()[3] == 'i'
            && ExtKeyUsage::EmailProtection.name()[6] == 'r',
        ExtKeyUsage::TimeStamping.name().len() == 12
            && ExtKeyUsage::TimeStamping.name()[0] == 't'
            && ExtKeyUsage::TimeStamping.name()[2] == 'm'
            && ExtKeyUsage::TimeStamping.name()[3] == 'e'
            && ExtKeyUsage::TimeStamping.name()[6] == 'a',
        ExtKeyUsage::MsCodeInd.name().len() == 9
            && ExtKeyUsage::MsCodeInd.name()[0] == 'm'
            && ExtKeyUsage::MsCodeInd.name()[2] == 'C'
            && ExtKeyUsage::MsCodeInd.name()[3] == 'o'
            && ExtKeyUsage::MsCodeInd.name()[6] == 'I',
        ExtKeyUsage::MsCodeCom.name().len() == 9
            && ExtKeyUsage::MsCodeCom.name()[0] == 'm'
            && ExtKeyUsage::MsCodeCom.name()[2] == 'C'
            && ExtKeyUsage::MsCodeCom.name()[3] == 'o'
            && ExtKeyUsage::MsCodeCom.name()[6] == 'C',
        ExtKeyUsage::MsCtlSign.name().len() == 9
            && ExtKeyUsage::MsCtlSign.name()[0] == 'm'
            && ExtKeyUsage::MsCtlSign.name()[2] == 'C'
            && ExtKeyUsage::MsCtlSign.name()[3] == 'T'
            && ExtKeyUsage::MsCtlSign.name()[6] == 'i',
        ExtKeyUsage::MsSgc.name().len() == 5
            && ExtKeyUsage::MsSgc.name()[0] == 'm'
            && ExtKeyUsage::MsSgc.name()[2] == 'S'
            && ExtKeyUsage::MsSgc.name()[3] == 'G',
        ExtKeyUsage::MsEfs.name().len() == 5
            && ExtKeyUsage::MsEfs.name()[0] == 'm'
            && ExtKeyUsage::MsEfs.name()[2] == 'E'
            && ExtKeyUsage::MsEfs.name()[3] == 'F',
        ExtKeyUsage::NsSgc.name().len() == 5
            && ExtKeyUsage::NsSgc.name()[0] == 'n'
            && ExtKeyUsage::NsSgc.name()[2] == 'S'
            && ExtKeyUsage::NsSgc.name()[3] == 'G',
{
    reveal_strlit("serverAuth");
    reveal_strlit("clientAuth");
    reveal_strlit("codeSigning");
    reveal_strlit("emailProtection");
    reveal_strlit("timeStamping");
    reveal_strlit("msCodeInd");
    reveal_strlit("msCodeCom");
    reveal_strlit("msCTLSign");
    reveal_strlit("msSGC");
    reveal_strlit("msEFS");
    reveal_strlit("nsSGC");
}

/// Every extended key usage name can stand in a comma-separated list.
pub proof fn lemma_ext_key_usage_name_is_list_word(k: ExtKeyUsage)
    ensures
        is_list_word(k.name()),
{
    lemma_ext_key_usage_name_letters();
}

/// Different extended key usages have different names.
pub proof fn lemma_ext_key_usage_name_injective(a: ExtKeyUsage, b: ExtKeyUsage)
    requires
        a.name() == b.name(),
    ensures
        a == b,
{
    lemma_ext_key_usage_name_letters();
    assert(a.name().len() == b.name().len());
    assert(a.name()[0] == b.name()[0]);
    assert(a.name()[2] == b.name()[2]);
    assert(a.name()[3] == b.name()[3]);
    assert(a.name().len() > 6 ==> a.name()[6] == b.name()[6]);
}

/// Two lists of key usages are written as the same keyUsage text only if
/// they are the same list, in the same order.
pub proof fn lemma_key_usage_text_injective(a: Seq<KeyUsage>, b: Seq<KeyUsage>)
    requires
        join_commas(names(a)) == join_commas(names(b)),
    ensures
        a == b,
{
    let na = names(a);
    let nb = names(b);
    assert(all_list_words(na)) by {
        assert forall|i: int| 0 <= i < na.len() implies is_list_word(#[trigger] na[i]) by {
            lemma_key_usage_name_is_list_word(a[i]);
        }
    }
    assert(all_list_words(nb)) by {
        assert forall|i: int| 0 <= i < nb.len() implies is_list_word(#[trigger] nb[i]) by {
            lemma_key_usage_name_is_list_word(b[i]);
        }
    }
    lemma_join_commas_injective(na, nb);
    assert(a.len() == b.len());
    assert forall|i: int| 0 <= i < a.len() implies a[i] == b[i] by {
        assert(na[i] == nb[i]);
        lemma_key_usage_name_injective(a[i], b[i]);
    }
    assert(a =~= b);
}

/// Two lists of extended key usages are written as the same extendedKeyUsage
/// text only if they are the same list, in the same order.
pub proof fn lemma_ext_key_usage_text_injective(a: Seq<ExtKeyUsage>, b: Seq<ExtKeyUsage>)
    requires
        join_commas(names(a)) == join_commas(names(b)),
    ensures
        a == b,
{
    let na = names(a);
    let nb = names(b);
    assert(all_list_words(na)) by {
        assert forall|i: int| 0 <= i < na.len() implies is_list_word(#[trigger] na[i]) by {
            lemma_ext_key_usage_name_is_list_word(a[i]);
        }
    }
    assert(all_list_words(nb)) by {
        assert forall|i: int| 0 <= i < nb.len() implies is_list_word(#[trigger] nb[i]) by {
            lemma_ext_key_usage_name_is_list_word(b[i]);
        }
    }
    lemma_join_commas_injective(na, nb);
    assert(a.len() == b.len());
    assert forall|i: int| 0 <= i < a.len() implies a[i] == b[i] by {
        assert(na[i] == nb[i]);
        lemma_ext_key_usage_name_injective(a[i], b[i]);
    }
    assert(a =~= b);
}

} // verus!
