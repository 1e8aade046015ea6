use vstd::prelude::*;

use crate::client::Client;
use crate::config::AppConfig;
use crate::error::Error;
use crate::horizon::execute_and_print_request;
use crate::horizon::executed_single;
use crate::horizon::rejected_input;
use crate::render::RenderValue;
use crate::render::Renderer;
use crate::request::Asset;
use crate::request::Descriptor;
use crate::request::Endpoint;
use crate::request::fresh;
use crate::stellar;
use crate::stellar::account_id_ok;
use vstd::string::StrSliceExecFns;

verus! {

/// The claimable balance lookups: filtered by claimant, sponsor or
/// asset, or a single balance by id.
#[derive(Debug)]
pub enum ClaimableBalanceCommand {
    AllByClaimant(AllByClaimantClaimableBalanceCommand),
    AllBySponsor(AllBySponsorClaimableBalanceCommand),
    AllByAsset(AllByAssetClaimableBalanceCommand),
    Single(SingleClaimableBalanceCommand),
}

/// Lists the claimable balances of one asset. The asset is written
/// `XLM` (in any letter case) for the native asset, and `CODE:ISSUER`
/// for every other asset.
#[derive(Debug)]
pub struct AllByAssetClaimableBalanceCommand {
    pub asset: String,
}

/// Lists the claimable balances claimable by one account.
#[derive(Debug)]
pub struct AllByClaimantClaimableBalanceCommand {
    pub claimant_id: String,
}

/// Lists the claimable balances sponsored by one account.
#[derive(Debug)]
pub struct AllBySponsorClaimableBalanceCommand {
    pub sponsor_id: String,
}

/// Fetches one claimable balance by its id.
#[derive(Debug)]
pub struct SingleClaimableBalanceCommand {
    pub claimable_balance_id: String,
}

/// No character of the sequence is a colon.
pub open spec fn no_colon(s: Seq<char>) -> bool {
    forall|k: int| 0 <= k < s.len() ==> s[k] != ':'
}

/// The first colon of the sequence stands at index `i`.
pub open spec fn first_colon_at(s: Seq<char>, i: int) -> bool {
    &&& 0 <= i < s.len()
    &&& s[i] == ':'
    &&& no_colon(s.take(i))
}

/// The name of the native asset, in any letter case.
pub open spec fn xlm_name(s: Seq<char>) -> bool {
    &&& s.len() == 3
    &&& (s[0] == 'X' || s[0] == 'x')
    &&& (s[1] == 'L' || s[1] == 'l')
    &&& (s[2] == 'M' || s[2] == 'm')
}

/// A credit asset code is acceptable: 1 to 12 bytes once encoded.
pub open spec fn credit_code_ok_chars(code: Seq<char>) -> bool {
    1 <= vstd::utf8::encode_utf8(code).len() <= 12
}

/// What parsing an asset selector yields for each input shape: `XLM` in
/// any letter case is the native asset; `CODE:ISSUER` with a valid
/// issuer account id and an acceptable code is that credit asset; and
/// everything else is rejected before any network call.
pub open spec fn parsed_asset(s: Seq<char>, res: Result<Asset, Error>) -> bool {
    &&& (no_colon(s) && xlm_name(s) ==> res == Ok::<Asset, Error>(Asset::Native))
    &&& (no_colon(s) && !xlm_name(s) ==> (res matches Err(e) && e matches Error::Validation(_)))
    &&& (forall|i: int| #[trigger]
        first_colon_at(s, i) ==> {
            if no_colon(s.skip(i + 1)) {
                if account_id_ok(s.skip(i + 1)) && credit_code_ok_chars(s.take(i)) {
                    res matches Ok(a) && a matches Asset::Credit { code, issuer } && code@
                        == s.take(i) && issuer@ == s.skip(i + 1)
                } else {
                    res matches Err(e) && e matches Error::Validation(_)
                }
            } else {
                res matches Err(e) && e matches Error::Validation(_)
            }
        })
}

/// The index of the first colon at or after `from`, if there is one.
fn find_colon(s: &str, from: usize) -> (r: Option<usize>)
    requires
        from <= s@.len(),
    ensures
        match r {
            Some(i) => {
                &&& from <= i < s@.len()
                &&& s@[i as int] == ':'
                &&& forall|j: int| from <= j < i ==> s@[j] != ':'
            },
            None => forall|j: int| from <= j < s@.len() ==> s@[j] != ':',
        },
{
    let n = s.unicode_len();
    let mut i = from;
    while i < n
        invariant
            from <= i <= n,
            n == s@.len(),
            forall|j: int| from <= j < i ==> s@[j] != ':',
        decreases n - i,
    {
        if s.get_char(i) == ':' {
            return Some(i);
        }
        i = i + 1;
    }
    None
}

/// The string names the native asset: three letters spelling `XLM` in
/// any letter case.
fn is_xlm(s: &str) -> (r: bool)
    ensures
        r == xlm_name(s@),
{
    let n = s.unicode_len();
    if n != 3 {
        return false;
    }
    let c0 = s.get_char(0);
    let c1 = s.get_char(1);
    let c2 = s.get_char(2);
    (c0 == 'X' || c0 == 'x') && (c1 == 'L' || c1 == 'l') && (c2 == 'M' || c2 == 'm')
}

/// Parses an asset selector: `XLM` (any letter case) is the native
/// asset; `CODE:ISSUER` is a credit asset whose issuer must be a valid
/// account id and whose code the external asset constructor must accept;
/// anything else is a validation error, reported before any network
/// call.
pub fn parse_asset(asset: String) -> (res: Result<Asset, Error>)
    ensures
        parsed_asset(asset@, res),
        res matches Err(e) ==> e matches Error::Validation(_),
{
    let s = asset.as_str();
    let n = s.unicode_len();
    match find_colon(s, 0) {
        None => {
            if is_xlm(s) {
                Ok(Asset::Native)
            } else {
                Err(Error::Validation(s.to_owned()))
            }
        },
        Some(i) => {
            assert(first_colon_at(asset@, i as int));
            let second = find_colon(s, i + 1);
            if second.is_some() {
                proof {
                    let k = second->Some_0 as int;
                    assert(asset@.skip(i as int + 1)[k - (i as int + 1)] == asset@[k]);
                    assert(!no_colon(asset@.skip(i as int + 1)));
                    assert forall|i2: int| #[trigger] first_colon_at(asset@, i2) implies i2
                        == i as int by {
                        if i2 > i as int {
                            assert(asset@.take(i2)[i as int] == asset@[i as int]);
                        }
                    }
                }
                return Err(Error::Validation(s.to_owned()));
            }
            let code = s.substring_char(0, i);
            let issuer = s.substring_char(i + 1, n);
            let pk = match stellar::parse_public_key(issuer) {
                Ok(pk) => pk,
                Err(e) => {
                    return Err(e);
                },
            };
            if stellar::check_credit_asset(code, pk) {
                Ok(Asset::Credit { code: code.to_owned(), issuer: issuer.to_owned() })
            } else {
                Err(Error::Validation(s.to_owned()))
            }
        },
    }
}

/// What running a claimable balance command does to the client and the
/// output.
pub open spec fn claimable_balance_command_post<C: Client>(
    command: ClaimableBalanceCommand,
    pre: C,
    post: C,
    res: Result<(), Error>,
    before: Seq<RenderValue>,
    after: Seq<RenderValue>,
) -> bool {
    match command {
        ClaimableBalanceCommand::AllByClaimant(cmd) => {
            if account_id_ok(cmd.claimant_id@) {
                executed_single(
                    pre,
                    post,
                    fresh(Endpoint::ClaimableBalancesByClaimant { claimant_id: cmd.claimant_id }),
                    res,
                    before,
                    after,
                )
            } else {
                rejected_input(pre, post, res, before, after)
            }
        },
        ClaimableBalanceCommand::AllBySponsor(cmd) => {
            if account_id_ok(cmd.sponsor_id@) {
                executed_single(
                    pre,
                    post,
                    fresh(Endpoint::ClaimableBalancesBySponsor { sponsor_id: cmd.sponsor_id }),
                    res,
                    before,
                    after,
                )
            } else {
                rejected_input(pre, post, res, before, after)
            }
        },
        ClaimableBalanceCommand::AllByAsset(cmd) => all_by_asset_post(cmd, pre, post, res, before, after),
        ClaimableBalanceCommand::Single(cmd) => executed_single(
            pre,
            post,
            fresh(
                Endpoint::ClaimableBalance { balance_id: cmd.claimable_balance_id },
            ),
            res,
            before,
            after,
        ),
    }
}

/// What the by-asset lookup does: with a selector that parses, exactly
/// one request for that asset's balances; with one that does not, a
/// validation error before any network call.
pub open spec fn all_by_asset_post<C: Client>(
    cmd: AllByAssetClaimableBalanceCommand,
    pre: C,
    post: C,
    res: Result<(), Error>,
    before: Seq<RenderValue>,
    after: Seq<RenderValue>,
) -> bool {
    exists|parsed: Result<Asset, Error>|
        #[trigger] parsed_asset(cmd.asset@, parsed) && match parsed {
            Ok(a) => executed_single(
                pre,
                post,
                fresh(Endpoint::ClaimableBalancesByAsset { asset: a }),
                res,
                before,
                after,
            ),
            Err(_) => rejected_input(pre, post, res, before, after),
        }
}

/// Dispatches a claimable balance command to its strategy.
pub fn run_command<C: Client, R: Renderer>(
    out: &mut R,
    config: &AppConfig,
    client: &mut C,
    command: ClaimableBalanceCommand,
) -> (res: Result<(), Error>)
    ensures
        claimable_balance_command_post(
            command,
            *old(client),
            *final(client),
            res,
            old(out).rendered(),
            final(out).rendered(),
        ),
{
    match command {
        ClaimableBalanceCommand::AllByAsset(cmd) => run_all_by_asset(out, config, client, cmd),
        ClaimableBalanceCommand::AllByClaimant(cmd) => run_all_by_claimant(
            out,
            config,
            client,
            cmd,
        ),
        ClaimableBalanceCommand::AllBySponsor(cmd) => run_all_by_sponsor(out, config, client, cmd),
        ClaimableBalanceCommand::Single(cmd) => run_single(out, config, client, cmd),
    }
}

/// Lists the claimable balances of one asset, parsed from its selector.
pub fn run_all_by_asset<C: Client, R: Renderer>(
    out: &mut R,
    _config: &AppConfig,
    client: &mut C,
    command: AllByAssetClaimableBalanceCommand,
) -> (res: Result<(), Error>)
    ensures
        all_by_asset_post(
            command,
            *old(client),
            *final(client),
            res,
            old(out).rendered(),
            final(out).rendered(),
        ),
{
    let parsed = parse_asset(command.asset);
    let ghost parsed_value = parsed;
    proof {
        assert(parsed_asset(command.asset@, parsed_value));
    }
    match parsed {
        Ok(asset) => {
            let request = Descriptor::new(Endpoint::ClaimableBalancesByAsset { asset });
            execute_and_print_request(out, client, request)
        },
        Err(e) => Err(e),
    }
}

/// Lists the claimable balances claimable by one account.
pub fn run_all_by_claimant<C: Client, R: Renderer>(
    out: &mut R,
    _config: &AppConfig,
    client: &mut C,
    command: AllByClaimantClaimableBalanceCommand,
) -> (res: Result<(), Error>)
    ensures
        account_id_ok(command.claimant_id@) ==> executed_single(
            *old(client),
            *final(client),
            fresh(Endpoint::ClaimableBalancesByClaimant { claimant_id: command.claimant_id }),
            res,
            old(out).rendered(),
            final(out).rendered(),
        ),
        !account_id_ok(command.claimant_id@) ==> rejected_input(
            *old(client),
            *final(client),
            res,
            old(out).rendered(),
            final(out).rendered(),
        ),
{
    match stellar::parse_public_key(command.claimant_id.as_str()) {
        Ok(_) => (),
        Err(e) => {
            return Err(e);
        },
    }
    let request = Descriptor::new(
        Endpoint::ClaimableBalancesByClaimant { claimant_id: command.claimant_id },
    );
    execute_and_print_request(out, client, request)
}

/// Lists the claimable balances sponsored by one account.
pub fn run_all_by_sponsor<C: Client, R: Renderer>(
    out: &mut R,
    _config: &AppConfig,
    client: &mut C,
    command: AllBySponsorClaimableBalanceCommand,
) -> (res: Result<(), Error>)
    ensures
        account_id_ok(command.sponsor_id@) ==> executed_single(
            *old(client),
            *final(client),
            fresh(Endpoint::ClaimableBalancesBySponsor { sponsor_id: command.sponsor_id }),
            res,
            old(out).rendered(),
            final(out).rendered(),
        ),
        !account_id_ok(command.sponsor_id@) ==> rejected_input(
            *old(client),
            *final(client),
            res,
            old(out).rendered(),
            final(out).rendered(),
        ),
{
    match stellar::parse_public_key(command.sponsor_id.as_str()) {
        Ok(_) => (),
        Err(e) => {
            return Err(e);
        },
    }
    let request = Descriptor::new(
        Endpoint::ClaimableBalancesBySponsor { sponsor_id: command.sponsor_id },
    );
    execute_and_print_request(out, client, request)
}

/// Fetches one claimable balance by id and renders what comes back.
pub fn run_single<C: Client, R: Renderer>(
    out: &mut R,
    _config: &AppConfig,
    client: &mut C,
    command: SingleClaimableBalanceCommand,
) -> (res: Result<(), Error>)
    ensures
        executed_single(
            *old(client),
            *final(client),
            fresh(Endpoint::ClaimableBalance { balance_id: command.claimable_balance_id }),
            res,
            old(out).rendered(),
            final(out).rendered(),
        ),
{
    let request = Descriptor::new(
        Endpoint::ClaimableBalance { balance_id: command.claimable_balance_id },
    );
    execute_and_print_request(out, client, request)
}

} // verus!
