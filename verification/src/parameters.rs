//! Builders of the setup records, and the split of a challenge budget.

use vstd::prelude::*;

use crate::constants::{DRG_DEGREE, DRG_NONCE, EXP_DEGREE, NODE_SIZE};
use crate::crypto::{concat_bytes, sha256, sha256_digest};
use crate::error::ParamsError;
use crate::fallback;
use crate::fallback::{public_params_of, FallbackPoSt};
use crate::merkle::MerkleTreeTrait;
use crate::policy::{PorepPolicy, PorepPolicyEntry};
use crate::scheme::ProofScheme;
use crate::stacked;
use crate::stacked::LayerChallenges;
use crate::types::{PaddedBytesAmount, PoStConfig};

verus! {

pub type WinningPostSetupParams = fallback::SetupParams;

pub type WinningPostPublicParams = fallback::PublicParams;

pub type WindowPostSetupParams = fallback::SetupParams;

pub type WindowPostPublicParams = fallback::PublicParams;

/// Challenges that a proof holds in all: `count` in each of `layers` layers
/// of each of `partitions` partitions.
pub open spec fn challenge_total(partitions: nat, layers: nat, count: nat) -> nat {
    partitions * (layers * count)
}

/// The least count of challenges per layer, at least 1, with which
/// `partitions` partitions of `layers` layers hold `minimum` challenges or
/// more.
pub open spec fn minimum_count(partitions: nat, minimum: nat, layers: nat) -> nat {
    if minimum <= partitions * layers {
        1
    } else {
        ((minimum - 1) / (partitions * layers) as int + 1) as nat
    }
}

/// Whether `select_challenges` takes these arguments: there is a partition
/// and a layer at least, and the total that the least count gives fits in
/// `usize`.
pub open spec fn spec_challenges_fit(partitions: usize, minimum: usize, layers: usize) -> bool {
    &&& partitions >= 1
    &&& layers >= 1
    &&& challenge_total(
        partitions as nat,
        layers as nat,
        minimum_count(partitions as nat, minimum as nat, layers as nat),
    ) <= usize::MAX
}

/// More challenges per layer never give fewer challenges in all, and with a
/// partition and a layer at least they give more.
pub proof fn lemma_challenge_total_monotonic(partitions: nat, layers: nat, low: nat, high: nat)
    requires
        low <= high,
    ensures
        challenge_total(partitions, layers, low) <= challenge_total(partitions, layers, high),
        partitions >= 1 && layers >= 1 && low < high ==> challenge_total(partitions, layers, low)
            < challenge_total(partitions, layers, high),
{
    assert(partitions * (layers * low) <= partitions * (layers * high)) by (nonlinear_arith)
        requires
            low <= high,
    ;
    if partitions >= 1 && layers >= 1 && low < high {
        assert(partitions * (layers * low) < partitions * (layers * high)) by (nonlinear_arith)
            requires
                partitions >= 1,
                layers >= 1,
                low < high,
        ;
    }
}

/// With a partition and a layer at least, the total is no less than the
/// challenges of one partition, and those no less than the count per layer.
pub proof fn lemma_challenge_total_bounds(partitions: nat, layers: nat, count: nat)
    requires
        partitions >= 1,
        layers >= 1,
    ensures
        count <= layers * count,
        layers * count <= challenge_total(partitions, layers, count),
        challenge_total(partitions, layers, count) == (partitions * layers) * count,
{
    assert(count <= layers * count && layers * count <= partitions * (layers * count)
        && partitions * (layers * count) == (partitions * layers) * count) by (nonlinear_arith)
        requires
            partitions >= 1,
            layers >= 1,
    ;
}

/// `minimum_count` meets the minimum, and no smaller count from 1 on does.
pub proof fn lemma_minimum_count_is_least(partitions: nat, minimum: nat, layers: nat)
    requires
        partitions >= 1,
        layers >= 1,
    ensures
        minimum_count(partitions, minimum, layers) >= 1,
        challenge_total(partitions, layers, minimum_count(partitions, minimum, layers)) >= minimum,
        forall|count: nat|
            1 <= count < minimum_count(partitions, minimum, layers) ==> #[trigger] challenge_total(
                partitions,
                layers,
                count,
            ) < minimum,
{
    let width = partitions * layers;
    let least = minimum_count(partitions, minimum, layers);
    assert(width >= 1) by (nonlinear_arith)
        requires
            width == partitions * layers,
            partitions >= 1,
            layers >= 1,
    ;
    lemma_challenge_total_bounds(partitions, layers, least);
    if minimum > width {
        let quotient = (minimum - 1) / (width as int);
        assert(width * quotient <= minimum - 1 < width * quotient + width) by (nonlinear_arith)
            requires
                width >= 1,
                minimum >= 1,
                quotient == (minimum - 1) / (width as int),
        ;
        assert(width * (quotient + 1) == width * quotient + width) by (nonlinear_arith);
        assert forall|count: nat| 1 <= count < least implies #[trigger] challenge_total(
            partitions,
            layers,
            count,
        ) < minimum by {
            lemma_challenge_total_bounds(partitions, layers, count);
            assert(width * count <= width * quotient) by (nonlinear_arith)
                requires
                    count <= quotient,
                    width >= 1,
            ;
        }
    }
}

/// Only `minimum_count` is both enough and least: a count from 1 on that
/// meets the minimum, while the count below it is 0 or does not, is
/// `minimum_count`.
pub proof fn lemma_minimum_count_unique(partitions: nat, minimum: nat, layers: nat, count: nat)
    requires
        partitions >= 1,
        layers >= 1,
        count >= 1,
        challenge_total(partitions, layers, count) >= minimum,
        count > 1 ==> challenge_total(partitions, layers, (count - 1) as nat) < minimum,
    ensures
        count == minimum_count(partitions, minimum, layers),
{
    let least = minimum_count(partitions, minimum, layers);
    lemma_minimum_count_is_least(partitions, minimum, layers);
    if count < least {
        assert(challenge_total(partitions, layers, count) < minimum);
    } else if count > least {
        lemma_challenge_total_monotonic(partitions, layers, least, (count - 1) as nat);
    }
}

/// Splits a budget of `minimum_total_challenges` over `partitions`
/// partitions of `layers` layers each: counts up from one challenge per
/// layer until the partitions together hold the budget.
///
/// There has to be a partition and a layer at least, and the total reached
/// has to fit in `usize`; `challenges_fit` tests both.
pub fn select_challenges(
    partitions: usize,
    minimum_total_challenges: usize,
    layers: usize,
) -> (plan: LayerChallenges)
    requires
        partitions >= 1,
        layers >= 1,
        challenges_fit(partitions, minimum_total_challenges, layers),
    ensures
        plan.layers() == layers,
        plan.max_count() == minimum_count(
            partitions as nat,
            minimum_total_challenges as nat,
            layers as nat,
        ),
        plan.max_count() >= 1,
        partitions * plan.spec_challenges_count_all() >= minimum_total_challenges,
        partitions == 1 ==> plan.spec_challenges_count_all() >= minimum_total_challenges,
        plan.max_count() > 1 ==> challenge_total(
            partitions as nat,
            layers as nat,
            (plan.max_count() - 1) as nat,
        ) < minimum_total_challenges,
{
    let ghost least = minimum_count(
        partitions as nat,
        minimum_total_challenges as nat,
        layers as nat,
    );
    proof {
        lemma_minimum_count_is_least(
            partitions as nat,
            minimum_total_challenges as nat,
            layers as nat,
        );
        lemma_challenge_total_monotonic(partitions as nat, layers as nat, 1, least);
        lemma_challenge_total_bounds(partitions as nat, layers as nat, 1);
    }
    let mut count: usize = 1;
    let mut guess = LayerChallenges::new(layers, count);
    while partitions * guess.challenges_count_all() < minimum_total_challenges
        invariant
            partitions >= 1,
            layers >= 1,
            least == minimum_count(
                partitions as nat,
                minimum_total_challenges as nat,
                layers as nat,
            ),
            challenge_total(partitions as nat, layers as nat, least) <= usize::MAX,
            1 <= count <= least,
            guess.layers() == layers,
            guess.max_count() == count,
            challenge_total(partitions as nat, layers as nat, count as nat) <= usize::MAX,
            count > 1 ==> challenge_total(partitions as nat, layers as nat, (count - 1) as nat)
                < minimum_total_challenges,
        decreases least - count,
    {
        proof {
            assert(count < least) by {
                lemma_minimum_count_is_least(
                    partitions as nat,
                    minimum_total_challenges as nat,
                    layers as nat,
                );
            }
            lemma_challenge_total_monotonic(
                partitions as nat,
                layers as nat,
                (count + 1) as nat,
                least,
            );
            lemma_challenge_total_bounds(partitions as nat, layers as nat, (count + 1) as nat);
            lemma_challenge_total_bounds(partitions as nat, layers as nat, least);
        }
        count += 1;
        guess = LayerChallenges::new(layers, count);
    }
    proof {
        lemma_minimum_count_unique(
            partitions as nat,
            minimum_total_challenges as nat,
            layers as nat,
            count as nat,
        );
        assert(1 * guess.spec_challenges_count_all() == guess.spec_challenges_count_all())
            by (nonlinear_arith);
    }
    guess
}

/// Whether `select_challenges` takes these arguments: a partition and a
/// layer at least, and a total that fits in `usize`.
#[verifier::when_used_as_spec(spec_challenges_fit)]
pub fn challenges_fit(
    partitions: usize,
    minimum_total_challenges: usize,
    layers: usize,
) -> (fits: bool)
    ensures
        fits == spec_challenges_fit(partitions, minimum_total_challenges, layers),
{
    if partitions == 0 || layers == 0 {
        return false;
    }
    proof {
        lemma_minimum_count_is_least(
            partitions as nat,
            minimum_total_challenges as nat,
            layers as nat,
        );
        lemma_challenge_total_bounds(
            partitions as nat,
            layers as nat,
            minimum_count(partitions as nat, minimum_total_challenges as nat, layers as nat),
        );
    }
    match partitions.checked_mul(layers) {
        None => {
            proof {
                let least = minimum_count(
                    partitions as nat,
                    minimum_total_challenges as nat,
                    layers as nat,
                );
                assert((partitions * layers) * least >= partitions * layers) by (nonlinear_arith)
                    requires
                        least >= 1,
                ;
            }
            false
        },
        Some(width) => {
            assert(width >= 1) by (nonlinear_arith)
                requires
                    width == partitions * layers,
                    partitions >= 1,
                    layers >= 1,
            ;
            if minimum_total_challenges <= width {
                true
            } else {
                let count: usize = (minimum_total_challenges - 1) / width + 1;
                width.checked_mul(count).is_some()
            }
        },
    }
}

/// The seed of the depth-robust graph that belongs to an identifier: the
/// first 28 bytes of the SHA-256 digest of the identifier followed by the
/// nonce.
pub open spec fn drg_seed(porep_id: Seq<u8>) -> Seq<u8> {
    sha256(porep_id + DRG_NONCE@).subrange(0, 28)
}

/// The first 28 bytes of a digest.
pub fn seed_from_digest(digest: &[u8; 32]) -> (seed: [u8; 28])
    ensures
        seed@ == digest@.subrange(0, 28),
{
    let mut seed: [u8; 28] = [0;28];
    let mut at: usize = 0;
    while at < 28
        invariant
            at <= 28,
            forall|i: int| 0 <= i < at ==> seed@[i] == digest@[i],
        decreases 28 - at,
    {
        seed[at] = digest[at];
        at += 1;
    }
    assert(seed@ =~= digest@.subrange(0, 28));
    seed
}

/// Derives the seed of the depth-robust graph from `porep_id`.
pub fn drg_seed_from_porep_id(porep_id: [u8; 32]) -> (seed: [u8; 28])
    ensures
        seed@ == drg_seed(porep_id@),
{
    let preimage = concat_bytes(porep_id.as_slice(), DRG_NONCE.as_slice());
    let digest = sha256_digest(preimage.as_slice());
    seed_from_digest(&digest)
}

/// A sector size that can be cut into nodes: positive and a multiple of the
/// node size.
pub open spec fn is_valid_sector_size(sector_bytes: u64) -> bool {
    sector_bytes > 0 && sector_bytes % NODE_SIZE == 0
}

/// Whether `setup_params` takes these arguments: where the sector size is
/// valid and in the table, `select_challenges` takes `partitions` and the
/// table's entry, and the number of nodes fits in `usize`.
pub open spec fn spec_setup_params_fit(
    policy: &PorepPolicy,
    sector_bytes: PaddedBytesAmount,
    partitions: usize,
) -> bool {
    is_valid_sector_size(sector_bytes.0) && policy@.contains_key(sector_bytes.0) ==> {
        &&& challenges_fit(
            partitions,
            policy@[sector_bytes.0].minimum_challenges,
            policy@[sector_bytes.0].layers,
        )
        &&& sector_bytes.0 / NODE_SIZE <= usize::MAX
    }
}

/// What `setup_params` returns: the error of a sector size that is invalid
/// or, if valid, not in the table; else the record for that size.
pub open spec fn is_setup_params_result(
    policy: Map<u64, PorepPolicyEntry>,
    sector_bytes: u64,
    partitions: usize,
    porep_id: Seq<u8>,
    result: Result<stacked::SetupParams, ParamsError>,
) -> bool {
    match result {
        Ok(params) => {
            &&& is_valid_sector_size(sector_bytes)
            &&& policy.contains_key(sector_bytes)
            &&& params.nodes == sector_bytes / NODE_SIZE
            &&& params.degree == DRG_DEGREE
            &&& params.expansion_degree == EXP_DEGREE
            &&& params.seed@ == drg_seed(porep_id)
            &&& params.layer_challenges.layers() == policy[sector_bytes].layers
            &&& params.layer_challenges.max_count() == minimum_count(
                partitions as nat,
                policy[sector_bytes].minimum_challenges as nat,
                policy[sector_bytes].layers as nat,
            )
        },
        Err(error) => if is_valid_sector_size(sector_bytes) {
            &&& !policy.contains_key(sector_bytes)
            &&& error == (ParamsError::UnknownSectorSize { sector_bytes })
        } else {
            error == (ParamsError::InvalidSectorSize { sector_bytes })
        },
    }
}

/// Whether `setup_params` takes these arguments.
#[verifier::when_used_as_spec(spec_setup_params_fit)]
pub fn setup_params_fit(
    policy: &PorepPolicy,
    sector_bytes: PaddedBytesAmount,
    partitions: usize,
) -> (fits: bool)
    ensures
        fits == spec_setup_params_fit(policy, sector_bytes, partitions),
{
    let sector_bytes: u64 = u64::from(sector_bytes);
    if sector_bytes == 0 || sector_bytes % NODE_SIZE != 0 {
        return true;
    }
    match policy.get(sector_bytes) {
        None => true,
        Some(entry) => {
            challenges_fit(partitions, entry.minimum_challenges, entry.layers)
                && sector_bytes / NODE_SIZE <= usize::MAX as u64
        },
    }
}

/// Builds the setup record of the proof of replication for a sector of
/// `sector_bytes` bytes, proved in `partitions` partitions, under the
/// identifier `porep_id`.
///
/// A sector size that is zero or no multiple of the node size is refused
/// first; one that `policy` does not hold is refused next. For any other the
/// record has one node per 32 bytes, the two degrees of the protocol, the
/// seed of `porep_id`, and the layers and challenges that the table's entry
/// asks for.
pub fn setup_params(
    policy: &PorepPolicy,
    sector_bytes: PaddedBytesAmount,
    partitions: usize,
    porep_id: [u8; 32],
) -> (result: Result<stacked::SetupParams, ParamsError>)
    requires
        setup_params_fit(policy, sector_bytes, partitions),
    ensures
        is_setup_params_result(policy@, sector_bytes.0, partitions, porep_id@, result),
        result is Ok <==> is_valid_sector_size(sector_bytes.0) && policy@.contains_key(
            sector_bytes.0,
        ),
        result matches Ok(params) ==> params.nodes == sector_bytes.0 / 32,
{
    let sector_bytes: u64 = u64::from(sector_bytes);
    if sector_bytes == 0 || sector_bytes % NODE_SIZE != 0 {
        return Err(ParamsError::InvalidSectorSize { sector_bytes });
    }
    let entry = match policy.get(sector_bytes) {
        Some(entry) => entry,
        None => {
            return Err(ParamsError::UnknownSectorSize { sector_bytes });
        },
    };
    let layer_challenges = select_challenges(partitions, entry.minimum_challenges, entry.layers);

    let nodes: usize = (sector_bytes / NODE_SIZE) as usize;
    let degree: usize = DRG_DEGREE;
    let expansion_degree: usize = EXP_DEGREE;

    let drg_seed = drg_seed_from_porep_id(porep_id);

    Ok(
        stacked::SetupParams {
            nodes,
            degree,
            expansion_degree,
            seed: drg_seed,
            layer_challenges,
        },
    )
}

/// Sets up the proof of replication `S` with the record of `setup_params`:
/// what comes back is what `S::setup` makes of that record. Fails where
/// `setup_params` fails, with its error.
pub fn public_params<S: ProofScheme<SetupParams = stacked::SetupParams>>(
    policy: &PorepPolicy,
    sector_bytes: PaddedBytesAmount,
    partitions: usize,
    porep_id: [u8; 32],
) -> (result: Result<S::PublicParams, ParamsError>)
    requires
        setup_params_fit(policy, sector_bytes, partitions),
    ensures
        result is Ok <==> is_valid_sector_size(sector_bytes.0) && policy@.contains_key(
            sector_bytes.0,
        ),
        result matches Ok(public) ==> (exists|params: stacked::SetupParams|
            #[trigger] is_setup_params_result(
                policy@,
                sector_bytes.0,
                partitions,
                porep_id@,
                Ok(params),
            ) && call_ensures(S::setup, (&params,), public)),
        result matches Err(error) ==> is_setup_params_result(
            policy@,
            sector_bytes.0,
            partitions,
            porep_id@,
            Err(error),
        ),
{
    match setup_params(policy, sector_bytes, partitions, porep_id) {
        Ok(params) => {
            let public = S::setup(&params);
            assert(is_setup_params_result(
                policy@,
                sector_bytes.0,
                partitions,
                porep_id@,
                Ok(params),
            ) && call_ensures(S::setup, (&params,), public));
            Ok(public)
        },
        Err(error) => Err(error),
    }
}

/// The setup record of the winning proof of spacetime for `post_config`, or
/// the error of a sector count that does not divide the challenge count.
///
/// The record's sector count is the configured challenge count over the
/// configured sector count; its challenge count is the configured challenge
/// count over that.
pub open spec fn winning_post_setup(post_config: PoStConfig) -> Result<
    WinningPostSetupParams,
    ParamsError,
> {
    let challenge_count = post_config.challenge_count;
    let sector_count = post_config.sector_count;
    if challenge_count % sector_count != 0 {
        Err(ParamsError::IndivisibleChallengeCount { challenge_count, sector_count })
    } else {
        let param_sector_count = (challenge_count / sector_count) as usize;
        let param_challenge_count = (challenge_count / param_sector_count) as usize;
        Ok(
            WinningPostSetupParams {
                sector_size: post_config.sector_size.0,
                challenge_count: param_challenge_count,
                sector_count: param_sector_count,
            },
        )
    }
}

/// Where the sector count divides the challenge count, the recomputed
/// counts multiply back to the challenge count without loss, and the
/// challenges per sector are the configured sector count.
pub proof fn lemma_winning_post_factoring(challenge_count: nat, sector_count: nat)
    requires
        challenge_count > 0,
        sector_count > 0,
        challenge_count % sector_count == 0,
    ensures
        challenge_count / sector_count >= 1,
        challenge_count / (challenge_count / sector_count) == sector_count,
        (challenge_count / sector_count) * (challenge_count / (challenge_count / sector_count))
            == challenge_count,
{
    let quotient = challenge_count / sector_count;
    assert(challenge_count == sector_count * quotient && quotient >= 1) by (nonlinear_arith)
        requires
            challenge_count > 0,
            sector_count > 0,
            challenge_count % sector_count == 0,
            quotient == challenge_count / sector_count,
    ;
    assert(challenge_count / quotient == sector_count) by (nonlinear_arith)
        requires
            challenge_count == sector_count * quotient,
            quotient >= 1,
    ;
    assert(quotient * sector_count == challenge_count) by (nonlinear_arith)
        requires
            challenge_count == sector_count * quotient,
    ;
}

/// Builds the setup record of the winning proof of spacetime. Fails if the
/// sector count does not divide the challenge count.
///
/// Both counts have to be positive: there is no division by zero.
pub fn winning_post_setup_params(post_config: &PoStConfig) -> (result: Result<
    WinningPostSetupParams,
    ParamsError,
>)
    requires
        post_config.challenge_count > 0,
        post_config.sector_count > 0,
    ensures
        result == winning_post_setup(*post_config),
        result is Ok <==> post_config.challenge_count % post_config.sector_count == 0,
        result matches Ok(params) ==> params.sector_count * params.challenge_count
            == post_config.challenge_count,
        result matches Ok(params) ==> params.challenge_count == post_config.sector_count,
{
    if post_config.challenge_count % post_config.sector_count != 0 {
        return Err(
            ParamsError::IndivisibleChallengeCount {
                challenge_count: post_config.challenge_count,
                sector_count: post_config.sector_count,
            },
        );
    }
    proof {
        lemma_winning_post_factoring(
            post_config.challenge_count as nat,
            post_config.sector_count as nat,
        );
    }
    let param_sector_count: usize = post_config.challenge_count / post_config.sector_count;
    let param_challenge_count: usize = post_config.challenge_count / param_sector_count;

    if param_sector_count * param_challenge_count != post_config.challenge_count {
        return Err(
            ParamsError::InternalInconsistency {
                sector_count: param_sector_count,
                challenge_count: param_challenge_count,
                expected: post_config.challenge_count,
            },
        );
    }
    Ok(
        WinningPostSetupParams {
            sector_size: u64::from(post_config.padded_sector_size()),
            challenge_count: param_challenge_count,
            sector_count: param_sector_count,
        },
    )
}

/// Sets up the winning proof of spacetime over trees of shape `Tree` with
/// the record of `winning_post_setup_params`. Fails where that fails, with
/// its error.
pub fn winning_post_public_params<Tree: MerkleTreeTrait>(post_config: &PoStConfig) -> (result:
    Result<WinningPostPublicParams, ParamsError>)
    requires
        post_config.challenge_count > 0,
        post_config.sector_count > 0,
    ensures
        result == (match winning_post_setup(*post_config) {
            Ok(params) => Ok(public_params_of(params)),
            Err(error) => Err(error),
        }),
        result is Ok <==> post_config.challenge_count % post_config.sector_count == 0,
        result matches Ok(public) ==> public.sector_count * public.challenge_count
            == post_config.challenge_count,
        result matches Ok(public) ==> public.challenge_count == post_config.sector_count,
{
    match winning_post_setup_params(post_config) {
        Ok(params) => Ok(FallbackPoSt::<Tree>::setup(&params)),
        Err(error) => Err(error),
    }
}

/// The setup record of the window proof of spacetime for `post_config`: its
/// sector size and its two counts as they are.
pub open spec fn window_post_setup(post_config: PoStConfig) -> WindowPostSetupParams {
    WindowPostSetupParams {
        sector_size: post_config.sector_size.0,
        challenge_count: post_config.challenge_count,
        sector_count: post_config.sector_count,
    }
}

/// Builds the setup record of the window proof of spacetime.
pub fn window_post_setup_params(post_config: &PoStConfig) -> (params: WindowPostSetupParams)
    ensures
        params == window_post_setup(*post_config),
{
    WindowPostSetupParams {
        sector_size: u64::from(post_config.padded_sector_size()),
        challenge_count: post_config.challenge_count,
        sector_count: post_config.sector_count,
    }
}

/// Sets up the window proof of spacetime over trees of shape `Tree` with the
/// record of `window_post_setup_params`. Never fails.
pub fn window_post_public_params<Tree: MerkleTreeTrait>(post_config: &PoStConfig) -> (result:
    Result<WindowPostPublicParams, ParamsError>)
    ensures
        result == Ok::<WindowPostPublicParams, ParamsError>(
            public_params_of(window_post_setup(*post_config)),
        ),
{
    Ok(FallbackPoSt::<Tree>::setup(&window_post_setup_params(post_config)))
}

} // verus!
