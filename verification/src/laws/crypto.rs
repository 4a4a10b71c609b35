//! What holds of the initialization of the crypto provider.
use vstd::prelude::*;

use crate::crypto::backend::Backend;
use crate::crypto::{CryptoFeatures, CryptoInit};

verus! {

/// Initialization reports a failure exactly if the first one of the process found no backend.
pub proof fn initialization_fails_only_without_backends(
    before: CryptoInit,
    features: CryptoFeatures,
    after: CryptoInit,
    result: Result<(), String>,
)
    requires
        before.choice() is None,
        crate::crypto::initialized(before, features, after),
        crate::crypto::reports(result, after.choice()->0),
    ensures
        result is Err <==> !features.crypto_ring && !features.crypto_aws_lc
            && !features.crypto_openssl && !features.crypto_symcrypt,
{
}

/// The first initialization of a process goes by priority: with openssl it is openssl that is
/// chosen, whatever else there is; without it aws-lc; without both ring; and symcrypt only if it is
/// the only one. Without any, none is.
pub proof fn first_initialization_goes_by_priority(
    before: CryptoInit,
    features: CryptoFeatures,
    after: CryptoInit,
)
    requires
        before.choice() is None,
        crate::crypto::initialized(before, features, after),
    ensures
        features.crypto_openssl ==> after.choice() == Some(Some(Backend::OpenSsl)),
        features.crypto_aws_lc && !features.crypto_openssl ==> after.choice() == Some(
            Some(Backend::AwsLc),
        ),
        features.crypto_ring && !features.crypto_aws_lc && !features.crypto_openssl
            ==> after.choice() == Some(Some(Backend::Ring)),
        features.crypto_symcrypt && !features.crypto_ring && !features.crypto_aws_lc
            && !features.crypto_openssl ==> after.choice() == Some(Some(Backend::SymCrypt)),
        !features.crypto_symcrypt && !features.crypto_ring && !features.crypto_aws_lc
            && !features.crypto_openssl ==> after.choice() == Some(None::<Backend>),
{
}

/// What the first initialization of a process chooses is what it hands to rustls, and nothing else,
/// unless it is symcrypt, which is left to the host.
pub proof fn first_initialization_installs_its_choice(
    before: CryptoInit,
    features: CryptoFeatures,
    after: CryptoInit,
    backend: Backend,
)
    requires
        before.choice() is None,
        crate::crypto::initialized(before, features, after),
    ensures
        after.choice() == Some(Some(backend)) && backend != Backend::SymCrypt ==> after.handed()
            == before.handed().push(backend) && !after.host_install(),
        after.choice() == Some(Some(Backend::SymCrypt)) ==> after.handed() == before.handed()
            && after.host_install(),
        after.choice() == Some(None::<Backend>) ==> after.handed() == before.handed()
            && !after.host_install(),
{
}

/// What is selected is one of the backends that the program is built with, and none that it is built
/// with goes before it.
pub proof fn choice_is_one_of_the_features(features: CryptoFeatures)
    ensures
        match features.selected() {
            Some(Backend::OpenSsl) => features.crypto_openssl,
            Some(Backend::AwsLc) => features.crypto_aws_lc && !features.crypto_openssl,
            Some(Backend::Ring) => features.crypto_ring && !features.crypto_aws_lc
                && !features.crypto_openssl,
            Some(Backend::SymCrypt) => features.crypto_symcrypt && !features.crypto_ring
                && !features.crypto_aws_lc && !features.crypto_openssl,
            None => !features.crypto_symcrypt && !features.crypto_ring && !features.crypto_aws_lc
                && !features.crypto_openssl,
        },
{
}

/// Once a process has been initialized, with a backend or without, another initialization leaves
/// everything as it is, whatever the features.
pub proof fn later_initialization_changes_nothing(
    before: CryptoInit,
    features: CryptoFeatures,
    after: CryptoInit,
)
    requires
        before.choice() is Some,
        crate::crypto::initialized(before, features, after),
    ensures
        after == before,
{
}

/// Initialization succeeds exactly if there is a backend; else the error names the features, one of
/// which is needed.
pub proof fn failure_names_the_features(result: Result<(), String>, chosen: Option<Backend>)
    requires
        crate::crypto::reports(result, chosen),
    ensures
        result is Ok <==> chosen is Some,
        result matches Err(reason) ==> reason@
            == "TLS support requires one of the crypto features: crypto-ring, crypto-aws-lc, crypto-openssl, or crypto-symcrypt"@,
{
}

/// A new process has chosen nothing. The host that asks it after its first initialization is told
/// to install the provider of SymCrypt exactly if symcrypt is the only backend, and is not told so
/// again. Asking changes neither the choice nor what was handed over.
pub proof fn host_is_told_once(
    fresh: CryptoInit,
    features: CryptoFeatures,
    initialized: CryptoInit,
    asked: CryptoInit,
    first: bool,
    again: CryptoInit,
    second: bool,
)
    requires
        crate::crypto::is_fresh(fresh),
        crate::crypto::initialized(fresh, features, initialized),
        crate::crypto::told(initialized, asked, first),
        crate::crypto::told(asked, again, second),
    ensures
        fresh.choice() is None,
        fresh.handed().len() == 0,
        !fresh.host_install(),
        first <==> features.crypto_symcrypt && !features.crypto_ring && !features.crypto_aws_lc
            && !features.crypto_openssl,
        !second,
        asked.choice() == initialized.choice(),
        asked.handed() == initialized.handed(),
{
}

/// However often a process is initialized, with whatever features and by whichever of the
/// functions that do so, only the first time counts: one provider at most is handed to rustls or
/// left to the host, that of the backend with the highest priority, and the choice stands. What
/// the host does in between is in [`one_provider_is_installed_at_most`].
pub proof fn repeated_initialization_installs_once(
    states: Seq<CryptoInit>,
    features: Seq<CryptoFeatures>,
    n: int,
)
    requires
        states.len() == features.len() + 1,
        states[0].choice() is None,
        forall|i: int|
            #![trigger features[i]]
            0 <= i < features.len() ==> crate::crypto::initialized(
                states[i],
                features[i],
                states[i + 1],
            ),
        1 <= n <= features.len(),
    ensures
        ({
            let selected = features[0].selected();
            &&& states[n].choice() == Some(selected)
            &&& states[n].handed() == states[0].handed() + crate::crypto::handed_for(selected)
            &&& states[n].host_install() == (selected == Some(Backend::SymCrypt))
            &&& crate::crypto::handed_for(selected).len() <= 1
        }),
    decreases n,
{
    let _ = features[n - 1];
    if n > 1 {
        repeated_initialization_installs_once(states, features, n - 1);
    }
}

/// All initializations of a process report the same.
pub proof fn repeated_initialization_reports_the_same(
    states: Seq<CryptoInit>,
    features: Seq<CryptoFeatures>,
    results: Seq<Result<(), String>>,
    first: int,
    second: int,
)
    requires
        states.len() == features.len() + 1,
        results.len() == features.len(),
        states[0].choice() is None,
        forall|i: int|
            #![trigger features[i]]
            0 <= i < features.len() ==> crate::crypto::initialized(
                states[i],
                features[i],
                states[i + 1],
            ) && crate::crypto::reports(results[i], states[i + 1].choice()->0),
        0 <= first < features.len(),
        0 <= second < features.len(),
    ensures
        results[first] is Ok <==> results[second] is Ok,
        results[first] matches Err(reason) ==> reason@ == results[second]->Err_0@,
{
    repeated_initialization_installs_once(states, features, first + 1);
    repeated_initialization_installs_once(states, features, second + 1);
    let _ = features[first];
    let _ = features[second];
}

/// Something done to the crypto provider of a process.
pub enum CryptoStep {
    /// It is initialized, by whichever of the functions that do so.
    Initialize(CryptoFeatures),
    /// The host asks whether it is to install the provider of SymCrypt, and is told `install`.
    Take { install: bool },
}

/// Whether `after` is what `step` makes of `before`.
pub open spec fn steps_to(before: CryptoInit, step: CryptoStep, after: CryptoInit) -> bool {
    match step {
        CryptoStep::Initialize(features) => crate::crypto::initialized(before, features, after),
        CryptoStep::Take { install } => crate::crypto::told(before, after, install),
    }
}

/// The life of a process' crypto provider: what was done, one after the other, and what it was
/// before and after each.
pub struct CryptoLife {
    pub states: Seq<CryptoInit>,
    pub steps: Seq<CryptoStep>,
}

impl CryptoLife {
    /// Whether this is such a life, from the beginning of the process on.
    pub open spec fn valid(self) -> bool {
        &&& self.states.len() == self.steps.len() + 1
        &&& crate::crypto::is_fresh(self.states[0])
        &&& forall|i: int|
            #![trigger self.steps[i]]
            0 <= i < self.steps.len() ==> steps_to(
                self.states[i],
                self.steps[i],
                self.states[i + 1],
            )
    }

    /// How often the host was told, before `n`, to install the provider of SymCrypt.
    pub open spec fn host_installs(self, n: nat) -> nat
        decreases n,
    {
        if n == 0 {
            0
        } else {
            self.host_installs((n - 1) as nat) + match self.steps[n - 1] {
                CryptoStep::Take { install } if install => 1nat,
                _ => 0nat,
            }
        }
    }

    /// How many providers were installed before `n`: handed to rustls here, or by the host.
    pub open spec fn installs(self, n: nat) -> nat {
        self.host_installs(n) + self.states[n as int].handed().len()
    }
}

/// In whatever order a process is initialized and its host asks, one provider at most is installed,
/// here and by the host together.
pub proof fn one_provider_is_installed_at_most(life: CryptoLife, n: nat)
    requires
        life.valid(),
        n <= life.steps.len(),
    ensures
        life.installs(n) <= 1,
{
    installs_follow_the_choice(life, n);
}

/// Once the first initialization has found a backend, and the host has asked after it, exactly one
/// provider is installed: that of the backend with the highest priority, by the host if this is
/// SymCrypt and here otherwise.
pub proof fn one_provider_is_installed_in_the_end(
    life: CryptoLife,
    n: nat,
    initialized: int,
    asked: int,
)
    requires
        life.valid(),
        0 <= initialized < asked < n <= life.steps.len(),
        life.states[initialized].choice() is None,
        life.steps[initialized] matches CryptoStep::Initialize(features)
            && features.selected() is Some,
        life.steps[asked] is Take,
    ensures
        life.installs(n) == 1,
        ({
            let selected = life.steps[initialized]->Initialize_0.selected();
            &&& life.states[n as int].choice() == Some(selected)
            &&& life.states[n as int].handed() == crate::crypto::handed_for(selected)
            &&& life.host_installs(n) == if selected == Some(Backend::SymCrypt) {
                1nat
            } else {
                0nat
            }
        }),
{
    choice_stands(life, initialized + 1, asked + 1);
    choice_stands(life, asked + 1, n as int);
    installs_follow_the_choice(life, n);
}

/// What was chosen stays chosen, and once nothing is left to the host, nothing is again.
proof fn choice_stands(life: CryptoLife, from: int, to: int)
    requires
        life.valid(),
        0 <= from <= to <= life.steps.len(),
        life.states[from].choice() is Some,
    ensures
        life.states[to].choice() == life.states[from].choice(),
        !life.states[from].host_install() ==> !life.states[to].host_install(),
    decreases to - from,
{
    if from < to {
        choice_stands(life, from, to - 1);
        let _ = life.steps[to - 1];
    }
}

/// What was installed so far follows from the choice and from whether something is still left to
/// the host.
proof fn installs_follow_the_choice(life: CryptoLife, n: nat)
    requires
        life.valid(),
        n <= life.steps.len(),
    ensures
        ({
            let now = life.states[n as int];
            match now.choice() {
                None => crate::crypto::is_fresh(now) && life.host_installs(n) == 0,
                Some(selected) => {
                    &&& now.handed() == crate::crypto::handed_for(selected)
                    &&& life.host_installs(n) + if now.host_install() {
                        1nat
                    } else {
                        0nat
                    } == if selected == Some(Backend::SymCrypt) {
                        1nat
                    } else {
                        0nat
                    }
                },
            }
        }),
    decreases n,
{
    if n > 0 {
        let i = n - 1;
        installs_follow_the_choice(life, i as nat);
        let _ = life.steps[i];
        let before = life.states[i];
        if let CryptoStep::Initialize(features) = life.steps[i] {
            if before.choice() is None {
                let handed = crate::crypto::handed_for(features.selected());
                assert(before.handed() + handed =~= handed);
            }
        }
    }
}

} // verus!
