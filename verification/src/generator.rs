//! Settings for a self-signed certificate, and the sequence of steps that
//! builds and signs such a certificate from them.
use vstd::prelude::*;

use crate::hash::HashType;
use crate::usage::{
    join_commas, lemma_ext_key_usage_text_injective, lemma_key_usage_text_injective, names,
    ExtKeyUsage, KeyUsage, ToStr,
};

verus! {

/// The settings of a generator, as values.
pub struct GeneratorView {
    pub bits: usize,
    pub days: usize,
    pub cn: Seq<char>,
    pub key_usage: Seq<KeyUsage>,
    pub ext_key_usage: Seq<ExtKeyUsage>,
    pub hash_type: HashType,
}

/// Settings from which a self-signed certificate and its key are generated.
pub struct X509Generator {
    bits: usize,
    days: usize,
    cn: String,
    key_usage: Vec<KeyUsage>,
    ext_key_usage: Vec<ExtKeyUsage>,
    hash_type: HashType,
}

impl View for X509Generator {
    type V = GeneratorView;

    closed spec fn view(&self) -> GeneratorView {
        GeneratorView {
            bits: self.bits,
            days: self.days,
            cn: self.cn@,
            key_usage: self.key_usage@,
            ext_key_usage: self.ext_key_usage@,
            hash_type: self.hash_type,
        }
    }
}

/// The settings of a new generator: a 1024-bit key, a validity of 365 days,
/// the common name "rust-openssl", no key usages and SHA-1 signatures.
pub open spec fn default_settings() -> GeneratorView {
    GeneratorView {
        bits: 1024,
        days: 365,
        cn: "rust-openssl"@,
        key_usage: seq![],
        ext_key_usage: seq![],
        hash_type: HashType::SHA1,
    }
}

/// The extension that a step adds to a certificate.
#[derive(Clone, Copy, Debug, PartialEq, Eq, Structural)]
pub enum ExtensionKind {
    KeyUsage,
    ExtKeyUsage,
}

/// One operation in the making of a certificate. A step that fails ends
/// the making with an error.
#[derive(Debug, PartialEq, Eq)]
pub enum CertStep {
    /// Generate a new RSA key pair of `bits` bits.
    GenerateKey { bits: usize },
    /// Allocate an empty certificate.
    CreateCertificate,
    /// Set the certificate's version field.
    SetVersion { version: i64 },
    /// Set the serial number to a random value.
    SetRandomSerialNumber,
    /// Set the validity period: read the times `not_before_days` and
    /// `not_after_days` days from now, both before either is set, then set
    /// the start and then the end of the period to them.
    SetValidity { not_before_days: usize, not_after_days: usize },
    /// Set the certificate's public key to that of the generated key.
    SetPublicKey,
    /// Add an entry to the subject name.
    AddSubjectEntry { field: String, value: String },
    /// Make the issuer name equal to the subject name.
    CopySubjectToIssuer,
    /// Add an extension written in OpenSSL's configuration syntax.
    AddExtension { kind: ExtensionKind, value: String },
    /// Sign the certificate with the generated key.
    Sign { hash_type: HashType },
}

/// A certificate step, as values.
pub enum StepView {
    GenerateKey { bits: usize },
    CreateCertificate,
    SetVersion { version: i64 },
    SetRandomSerialNumber,
    SetValidity { not_before_days: usize, not_after_days: usize },
    SetPublicKey,
    AddSubjectEntry { field: Seq<char>, value: Seq<char> },
    CopySubjectToIssuer,
    AddExtension { kind: ExtensionKind, value: Seq<char> },
    Sign { hash_type: HashType },
}

impl View for CertStep {
    type V = StepView;

    open spec fn view(&self) -> StepView {
        match self {
            CertStep::GenerateKey { bits } => StepView::GenerateKey { bits: *bits },
            CertStep::CreateCertificate => StepView::CreateCertificate,
            CertStep::SetVersion { version } => StepView::SetVersion { version: *version },
            CertStep::SetRandomSerialNumber => StepView::SetRandomSerialNumber,
            CertStep::SetValidity { not_before_days, not_after_days } => StepView::SetValidity {
                not_before_days: *not_before_days,
                not_after_days: *not_after_days,
            },
            CertStep::SetPublicKey => StepView::SetPublicKey,
            CertStep::AddSubjectEntry { field, value } => StepView::AddSubjectEntry {
                field: field@,
                value: value@,
            },
            CertStep::CopySubjectToIssuer => StepView::CopySubjectToIssuer,
            CertStep::AddExtension { kind, value } => StepView::AddExtension {
                kind: *kind,
                value: value@,
            },
            CertStep::Sign { hash_type } => StepView::Sign { hash_type: *hash_type },
        }
    }
}

/// The views of `steps`, in order.
pub open spec fn step_views(steps: Seq<CertStep>) -> Seq<StepView> {
    steps.map_values(|s: CertStep| s@)
}

/// The version field of an X.509 v3 certificate.
pub open spec fn x509_v3() -> i64 {
    2
}

/// The steps that make a certificate with settings `g`: generate the key,
/// fill in version 3, a random serial number, a validity from now to `days`
/// days from now (both times read before either is set), the public key, the common name as subject and as
/// issuer, a keyUsage and an extendedKeyUsage extension where there are
/// usages to list, and sign.
pub open spec fn planned_steps(g: GeneratorView) -> Seq<StepView> {
    let fixed = seq![
        StepView::GenerateKey { bits: g.bits },
        StepView::CreateCertificate,
        StepView::SetVersion { version: x509_v3() },
        StepView::SetRandomSerialNumber,
        StepView::SetValidity { not_before_days: 0, not_after_days: g.days },
        StepView::SetPublicKey,
        StepView::AddSubjectEntry { field: "CN"@, value: g.cn },
        StepView::CopySubjectToIssuer,
    ];
    let key_usage: Seq<StepView> = if g.key_usage.len() > 0 {
        seq![
            StepView::AddExtension {
                kind: ExtensionKind::KeyUsage,
                value: join_commas(names(g.key_usage)),
            },
        ]
    } else {
        seq![]
    };
    let ext_key_usage: Seq<StepView> = if g.ext_key_usage.len() > 0 {
        seq![
            StepView::AddExtension {
                kind: ExtensionKind::ExtKeyUsage,
                value: join_commas(names(g.ext_key_usage)),
            },
        ]
    } else {
        seq![]
    };
    fixed + key_usage + ext_key_usage + seq![StepView::Sign { hash_type: g.hash_type }]
}

impl X509Generator {
    /// A generator with the default settings.
    pub fn new() -> (g: X509Generator)
        ensures
            g@ == default_settings(),
    {
        let g = X509Generator {
            bits: 1024,
            days: 365,
            cn: "rust-openssl".to_owned(),
            key_usage: Vec::new(),
            ext_key_usage: Vec::new(),
            hash_type: HashType::SHA1,
        };
        assert(g@.key_usage =~= seq![]);
        assert(g@.ext_key_usage =~= seq![]);
        g
    }

    /// Sets the number of bits of the generated key.
    pub fn set_bitlength(self, bits: usize) -> (g: X509Generator)
        ensures
            g@ == (GeneratorView { bits: bits, ..self@ }),
    {
        X509Generator { bits: bits, ..self }
    }

    /// Sets the number of days for which the certificate is valid.
    pub fn set_valid_period(self, days: usize) -> (g: X509Generator)
        ensures
            g@ == (GeneratorView { days: days, ..self@ }),
    {
        X509Generator { days: days, ..self }
    }

    /// Sets the common name of the subject (and issuer).
    #[allow(non_snake_case)]
    pub fn set_CN(self, CN: &str) -> (g: X509Generator)
        ensures
            g@ == (GeneratorView { cn: CN@, ..self@ }),
    {
        X509Generator { cn: CN.to_owned(), ..self }
    }

    /// Sets the key usages; an empty list leaves out the keyUsage extension.
    pub fn set_usage(self, purposes: &[KeyUsage]) -> (g: X509Generator)
        ensures
            g@ == (GeneratorView { key_usage: purposes@, ..self@ }),
    {
        X509Generator { key_usage: vstd::slice::slice_to_vec(purposes), ..self }
    }

    /// Sets the extended key usages; an empty list leaves out the
    /// extendedKeyUsage extension.
    pub fn set_ext_usage(self, purposes: &[ExtKeyUsage]) -> (g: X509Generator)
        ensures
            g@ == (GeneratorView { ext_key_usage: purposes@, ..self@ }),
    {
        X509Generator { ext_key_usage: vstd::slice::slice_to_vec(purposes), ..self }
    }

    /// Sets the digest with which the certificate is signed.
    pub fn set_sign_hash(self, hash_type: HashType) -> (g: X509Generator)
        ensures
            g@ == (GeneratorView { hash_type: hash_type, ..self@ }),
    {
        X509Generator { hash_type: hash_type, ..self }
    }

    /// The steps that make a self-signed certificate with these settings,
    /// in the order in which they are to be carried out.
    pub fn generation_steps(&self) -> (steps: Vec<CertStep>)
        ensures
            step_views(steps@) == planned_steps(self@),
    {
        let mut steps: Vec<CertStep> = Vec::new();
        steps.push(CertStep::GenerateKey { bits: self.bits });
        steps.push(CertStep::CreateCertificate);
        steps.push(CertStep::SetVersion { version: 2 });
        steps.push(CertStep::SetRandomSerialNumber);
        steps.push(CertStep::SetValidity { not_before_days: 0, not_after_days: self.days });
        steps.push(CertStep::SetPublicKey);
        steps.push(
            CertStep::AddSubjectEntry { field: "CN".to_owned(), value: self.cn.clone() },
        );
        steps.push(CertStep::CopySubjectToIssuer);
        let ghost fixed = steps@;
        if self.key_usage.len() > 0 {
            steps.push(
                CertStep::AddExtension {
                    kind: ExtensionKind::KeyUsage,
                    value: self.key_usage.to_str(),
                },
            );
        }
        if self.ext_key_usage.len() > 0 {
            steps.push(
                CertStep::AddExtension {
                    kind: ExtensionKind::ExtKeyUsage,
                    value: self.ext_key_usage.to_str(),
                },
            );
        }
        steps.push(CertStep::Sign { hash_type: self.hash_type });
        proof {
            let g = self@;
            let fixed_view = seq![
                StepView::GenerateKey { bits: g.bits },
                StepView::CreateCertificate,
                StepView::SetVersion { version: x509_v3() },
                StepView::SetRandomSerialNumber,
                StepView::SetValidity { not_before_days: 0, not_after_days: g.days },
                StepView::SetPublicKey,
                StepView::AddSubjectEntry { field: "CN"@, value: g.cn },
                StepView::CopySubjectToIssuer,
            ];
            assert(step_views(fixed) =~= fixed_view);
            assert(step_views(steps@) =~= planned_steps(g));
        }
        steps
    }
}

/// Where the making of a certificate stands after a step.
#[derive(Clone, Copy, Debug, PartialEq, Eq, Structural)]
pub enum Progress {
    /// Carry out the step at this index next.
    Next(usize),
    /// A step failed: the making ends with its error.
    Failed,
    /// The last step succeeded: the certificate is made.
    Finished,
}

/// What follows step `index` of `total` steps, given whether it succeeded:
/// a failed step ends the making; one that succeeded is followed by the next
/// step, or, after the last step, by the end of the making.
pub fn after_step(index: usize, total: usize, succeeded: bool) -> (p: Progress)
    requires
        index < total,
    ensures
        !succeeded ==> p == Progress::Failed,
        succeeded && index + 1 < total ==> p == Progress::Next((index + 1) as usize),
        succeeded && index + 1 == total ==> p == Progress::Finished,
{
    if !succeeded {
        Progress::Failed
    } else if index + 1 < total {
        Progress::Next(index + 1)
    } else {
        Progress::Finished
    }
}

/// The big-endian number that `bytes` spell, most significant byte first.
pub open spec fn be_value(bytes: Seq<u8>) -> nat
    decreases bytes.len(),
{
    if bytes.len() == 0 {
        0
    } else {
        be_value(bytes.drop_last()) * 256 + bytes.last() as nat
    }
}

/// The signed number whose 64-bit two's-complement form is `v`.
pub open spec fn signed64(v: int) -> int {
    if v >= 0x8000_0000_0000_0000 {
        v - 0x1_0000_0000_0000_0000
    } else {
        v
    }
}

/// Reads `bytes` as a big-endian number and keeps its low 64 bits, as a
/// two's-complement signed value: the serial number made from random bytes.
pub fn serial_from_bytes(bytes: &[u8]) -> (serial: i64)
    ensures
        serial as int == signed64((be_value(bytes@) % 0x1_0000_0000_0000_0000) as int),
{
    let mut acc: u64 = 0;
    let n = bytes.len();
    for i in 0..n
        invariant
            n == bytes@.len(),
            acc as int == be_value(bytes@.take(i as int)) % 0x1_0000_0000_0000_0000,
    {
        let b = bytes[i];
        proof {
            let prev = be_value(bytes@.take(i as int));
            assert(bytes@.take(i + 1).drop_last() =~= bytes@.take(i as int));
            assert(bytes@.take(i + 1).last() == b);
            assert(((acc << 8u64) | (b as u64)) as int == ((acc as int) * 256 + (b as int))
                % 0x1_0000_0000_0000_0000) by (bit_vector);
            vstd::arithmetic::div_mod::lemma_mul_mod_noop_left(
                prev as int,
                256,
                0x1_0000_0000_0000_0000,
            );
            vstd::arithmetic::div_mod::lemma_add_mod_noop(
                (prev * 256) as int,
                b as int,
                0x1_0000_0000_0000_0000,
            );
            vstd::arithmetic::div_mod::lemma_add_mod_noop(
                (acc as int) * 256,
                b as int,
                0x1_0000_0000_0000_0000,
            );
            vstd::arithmetic::div_mod::lemma_small_mod(b as nat, 0x1_0000_0000_0000_0000);
        }
        acc = (acc << 8u64) | (b as u64);
    }
    proof {
        assert(bytes@.take(n as int) =~= bytes@);
        assert((acc as i64) as int == if acc >= 0x8000_0000_0000_0000u64 {
            acc as int - 0x1_0000_0000_0000_0000
        } else {
            acc as int
        }) by (bit_vector);
    }
    acc as i64
}

/// The steps lose no setting: two generators whose certificates are made by
/// the same steps have the same settings.
pub proof fn lemma_plan_determines_settings(a: X509Generator, b: X509Generator)
    requires
        planned_steps(a@) == planned_steps(b@),
    ensures
        a@ == b@,
{
    let (ga, gb) = (a@, b@);
    let (pa, pb) = (planned_steps(ga), planned_steps(gb));
    assert(pa[0] == StepView::GenerateKey { bits: ga.bits });
    assert(pb[0] == StepView::GenerateKey { bits: gb.bits });
    assert(pa[4] == StepView::SetValidity { not_before_days: 0, not_after_days: ga.days });
    assert(pb[4] == StepView::SetValidity { not_before_days: 0, not_after_days: gb.days });
    assert(pa[6] == StepView::AddSubjectEntry { field: "CN"@, value: ga.cn });
    assert(pb[6] == StepView::AddSubjectEntry { field: "CN"@, value: gb.cn });
    assert(pa[pa.len() - 1] == StepView::Sign { hash_type: ga.hash_type });
    assert(pb[pb.len() - 1] == StepView::Sign { hash_type: gb.hash_type });
    let ka = StepView::AddExtension {
        kind: ExtensionKind::KeyUsage,
        value: join_commas(names(ga.key_usage)),
    };
    let kb = StepView::AddExtension {
        kind: ExtensionKind::KeyUsage,
        value: join_commas(names(gb.key_usage)),
    };
    let ea = StepView::AddExtension {
        kind: ExtensionKind::ExtKeyUsage,
        value: join_commas(names(ga.ext_key_usage)),
    };
    let eb = StepView::AddExtension {
        kind: ExtensionKind::ExtKeyUsage,
        value: join_commas(names(gb.ext_key_usage)),
    };
    if ga.key_usage.len() > 0 {
        assert(pa[8] == ka);
    }
    if gb.key_usage.len() > 0 {
        assert(pb[8] == kb);
    }
    if ga.ext_key_usage.len() > 0 {
        assert(pa[pa.len() - 2] == ea);
    }
    if gb.ext_key_usage.len() > 0 {
        assert(pb[pb.len() - 2] == eb);
    }
    if ga.key_usage.len() == 0 && ga.ext_key_usage.len() > 0 {
        assert(pa[8] == ea);
    }
    if gb.key_usage.len() == 0 && gb.ext_key_usage.len() > 0 {
        assert(pb[8] == eb);
    }
    if ga.key_usage.len() > 0 && gb.key_usage.len() > 0 {
        lemma_key_usage_text_injective(ga.key_usage, gb.key_usage);
    }
    if ga.ext_key_usage.len() > 0 && gb.ext_key_usage.len() > 0 {
        lemma_ext_key_usage_text_injective(ga.ext_key_usage, gb.ext_key_usage);
    }
    if ga.key_usage.len() == 0 && gb.key_usage.len() == 0 {
        assert(ga.key_usage =~= gb.key_usage);
    }
    if ga.ext_key_usage.len() == 0 && gb.ext_key_usage.len() == 0 {
        assert(ga.ext_key_usage =~= gb.ext_key_usage);
    }
}

/// The shape of every plan, whatever the settings: the key of the set size
/// is made first; the version field is 2 (X.509 v3); the validity runs from
/// now (0 days) to the set number of days; the common name goes into the
/// subject before the subject is copied to the issuer, so issuer and subject
/// are the same name; a keyUsage extension holding the key usage names
/// joined by commas comes whenever key usages are set, whatever the extended
/// key usages; an extendedKeyUsage extension holding the extended key usage
/// names comes whenever extended key usages are set; and the last step signs
/// with exactly the set digest. Each of these steps stands at one place only.
pub proof fn lemma_plan_shape(g: X509Generator)
    ensures
        ({
            let p = planned_steps(g@);
            let ku = g@.key_usage;
            let eku = g@.ext_key_usage;
            let extra: int = (if ku.len() > 0 { 1int } else { 0int }) + (if eku.len() > 0 {
                1int
            } else {
                0int
            });
            &&& p.len() == 9 + extra
            &&& p[0] == StepView::GenerateKey { bits: g@.bits }
            &&& p[1] == StepView::CreateCertificate
            &&& p[2] == StepView::SetVersion { version: 2 }
            &&& p[3] == StepView::SetRandomSerialNumber
            &&& p[4] == StepView::SetValidity { not_before_days: 0, not_after_days: g@.days }
            &&& p[5] == StepView::SetPublicKey
            &&& p[6] == StepView::AddSubjectEntry { field: "CN"@, value: g@.cn }
            &&& p[7] == StepView::CopySubjectToIssuer
            &&& p[p.len() - 1] == StepView::Sign { hash_type: g@.hash_type }
            &&& ku.len() > 0 ==> p[8] == StepView::AddExtension {
                kind: ExtensionKind::KeyUsage,
                value: join_commas(names(ku)),
            }
            &&& eku.len() > 0 ==> p[p.len() - 2] == StepView::AddExtension {
                kind: ExtensionKind::ExtKeyUsage,
                value: join_commas(names(eku)),
            }
            &&& forall|i: int|
                0 <= i < p.len() ==> {
                    &&& (#[trigger] p[i] matches StepView::AddExtension { kind, value } ==> {
                        &&& kind == ExtensionKind::KeyUsage ==> ku.len() > 0 && value
                            == join_commas(names(ku))
                        &&& kind == ExtensionKind::ExtKeyUsage ==> eku.len() > 0 && value
                            == join_commas(names(eku))
                    })
                    &&& (p[i] is Sign ==> i == p.len() - 1)
                    &&& (p[i] is AddSubjectEntry ==> i == 6)
                    &&& (p[i] is CopySubjectToIssuer ==> i == 7)
                    &&& (p[i] is SetValidity ==> i == 4)
                    &&& (p[i] is GenerateKey ==> i == 0)
                }
        }),
{
    let p = planned_steps(g@);
    let ku = g@.key_usage;
    let eku = g@.ext_key_usage;
    let fixed = seq![
        StepView::GenerateKey { bits: g@.bits },
        StepView::CreateCertificate,
        StepView::SetVersion { version: x509_v3() },
        StepView::SetRandomSerialNumber,
        StepView::SetValidity { not_before_days: 0, not_after_days: g@.days },
        StepView::SetPublicKey,
        StepView::AddSubjectEntry { field: "CN"@, value: g@.cn },
        StepView::CopySubjectToIssuer,
    ];
    let ks: Seq<StepView> = if ku.len() > 0 {
        seq![StepView::AddExtension { kind: ExtensionKind::KeyUsage, value: join_commas(names(ku)) }]
    } else {
        seq![]
    };
    let es: Seq<StepView> = if eku.len() > 0 {
        seq![
            StepView::AddExtension {
                kind: ExtensionKind::ExtKeyUsage,
                value: join_commas(names(eku)),
            },
        ]
    } else {
        seq![]
    };
    let last = seq![StepView::Sign { hash_type: g@.hash_type }];
    assert(p == fixed + ks + es + last);
    assert forall|i: int| 0 <= i < p.len() implies {
        &&& (#[trigger] p[i] matches StepView::AddExtension { kind, value } ==> {
            &&& kind == ExtensionKind::KeyUsage ==> ku.len() > 0 && value == join_commas(names(ku))
            &&& kind == ExtensionKind::ExtKeyUsage ==> eku.len() > 0 && value == join_commas(
                names(eku),
            )
        })
        &&& (p[i] is Sign ==> i == p.len() - 1)
        &&& (p[i] is AddSubjectEntry ==> i == 6)
        &&& (p[i] is CopySubjectToIssuer ==> i == 7)
        &&& (p[i] is SetValidity ==> i == 4)
        &&& (p[i] is GenerateKey ==> i == 0)
    } by {
        if i < 8 {
            assert(p[i] == fixed[i]);
        } else if i < 8 + ks.len() {
            assert(p[i] == ks[i - 8]);
        } else if i < 8 + ks.len() + es.len() {
            assert(p[i] == es[i - 8 - ks.len()]);
        } else {
            assert(p[i] == last[0]);
        }
    }
}

} // verus!
