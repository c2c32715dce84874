//! The coordinator contract: task submission, answer resolution, request
//! finalization, and the model registration and reward path.
//!
//! Every host interaction (creating a suspension point, reading the yield
//! register, emitting an event, resuming a suspension, transferring a
//! reward, writing a log line) is performed by the runtime shell around this
//! library. Each entry point here is the decision part of one inbound call:
//! it takes what the host handed over as plain values, mutates the contract
//! state, and returns the values the shell must publish or execute.
use vstd::prelude::*;
use vstd::string::StringExecFns;
use crate::account::AccountId;
use crate::codec::dec_rep;
use crate::codec::decimal_u128;
use crate::codec::decimal_u64;
use crate::codec::json_encode_string;
use crate::codec::json_string_bytes;
use crate::registry::ModelRegistry;

verus! {

/// A model name together with the reward its operator is owed for one
/// completed task, as the attestation center supplies it at disbursement
/// time. The reward is counted in yoctoNEAR.
#[derive(Clone)]
pub struct ModelInfo {
    pub model_name: String,
    pub reward: u128,
}

/// The terminal value of one suspended task submission: the worker's answer,
/// or a timeout.
#[derive(Debug, PartialEq, Eq)]
pub enum Response {
    Answer(String),
    TimeOutError,
}

/// The event that publishes a pending request: the sole channel through
/// which an off-chain worker learns which token to answer and what work to
/// perform.
#[derive(Debug, PartialEq, Eq)]
pub struct AvsEvent {
    pub model_name: String,
    pub prompt: String,
    pub yield_id: [u8; 32],
}

/// Why capturing the correlation token failed. Either way the inbound call
/// must be aborted whole: no state change, no event.
#[derive(Debug, PartialEq, Eq, Structural)]
pub enum TokenError {
    /// The yield register held nothing after the suspension was created.
    RegisterEmpty,
    /// The yield register held something other than a 32-byte token.
    TokenLength,
}

/// The host's verdict on a resumption callback when no answer was
/// delivered: the promise failed (the timeout elapsed), or its result was
/// longer than the host accepts.
#[derive(Debug, PartialEq, Eq, Structural)]
pub enum CallbackError {
    Failed,
    TooLong(usize),
}

/// An instruction to the shell: resume the suspension named by `yield_id`
/// with `payload` as the delivered answer bytes.
pub struct ResumeAction {
    pub yield_id: [u8; 32],
    pub payload: Vec<u8>,
}

/// An instruction to the shell: transfer `amount` yoctoNEAR to `recipient`.
pub struct RewardTransfer {
    pub recipient: AccountId,
    pub amount: u128,
}

/// The mathematical value of the contract state.
pub struct AvsLogicView {
    pub attestation_center: Seq<char>,
    pub request_id: u64,
    pub models: Map<Seq<char>, Seq<char>>,
}

/// The registry that holds the `models` pairs, inserted in order: the last
/// pair with a given name wins, as registration does.
pub open spec fn pairs_map(s: Seq<(String, AccountId)>) -> Map<Seq<char>, Seq<char>>
    decreases s.len(),
{
    if s.len() == 0 {
        Map::empty()
    } else {
        pairs_map(s.drop_last()).insert(s.last().0@, s.last().1@)
    }
}

/// The state right after construction: no requests yet, no models.
pub open spec fn initial_view(attestation_center: Seq<char>) -> AvsLogicView {
    AvsLogicView { attestation_center, request_id: 0, models: Map::empty() }
}

/// The state change of one completed task submission.
pub open spec fn submit_view(v: AvsLogicView) -> AvsLogicView {
    AvsLogicView {
        attestation_center: v.attestation_center,
        request_id: (v.request_id + 1) as u64,
        models: v.models,
    }
}

/// The state change of one model registration.
pub open spec fn register_view(v: AvsLogicView, name: Seq<char>, account: Seq<char>) -> AvsLogicView {
    AvsLogicView {
        attestation_center: v.attestation_center,
        request_id: v.request_id,
        models: v.models.insert(name, account),
    }
}

/// The payload handed to the resumption callback of request `n`.
pub open spec fn yield_payload_text(n: nat) -> Seq<char> {
    "{\"request_id\":"@ + dec_rep(n) + "}"@
}

/// The audit line of a model registration.
pub open spec fn register_log_text(name: Seq<char>, reward: nat) -> Seq<char> {
    "Model registered for "@ + name + " with reward "@ + dec_rep(reward)
}

/// The audit line of the simulated inference run.
pub open spec fn inference_log_text(name: Seq<char>, account: Seq<char>) -> Seq<char> {
    "Running inference on model: "@ + name + " by "@ + account
}

/// The audit line of a reward transfer.
pub open spec fn reward_log_text(account: Seq<char>, reward: nat, name: Seq<char>) -> Seq<char> {
    "Rewarding performer: "@ + account + " with "@ + dec_rep(reward)
        + " NEAR for using model: "@ + name
}

/// The audit line of a skipped disbursement.
pub open spec fn no_model_log_text(name: Seq<char>) -> Seq<char> {
    "No model registered for "@ + name
}

fn token_from_bytes(v: &Vec<u8>) -> (r: [u8; 32])
    requires
        v@.len() == 32,
    ensures
        r@ == v@,
{
    let mut a: [u8; 32] = [0u8; 32];
    let mut i: usize = 0;
    while i < 32
        invariant
            v@.len() == 32,
            i <= 32,
            forall|k: int| 0 <= k < i ==> a@[k] == v@[k],
        decreases 32 - i,
    {
        a[i] = v[i];
        i += 1;
    }
    proof {
        assert(a@ =~= v@);
    }
    a
}

/// The coordinator's state root: the account allowed to submit tasks, the
/// request counter, and the model registry.
pub struct AvsLogic {
    attestation_center: AccountId,
    request_id: u64,
    models: ModelRegistry,
}

impl View for AvsLogic {
    type V = AvsLogicView;

    closed spec fn view(&self) -> AvsLogicView {
        AvsLogicView {
            attestation_center: self.attestation_center@,
            request_id: self.request_id,
            models: self.models@,
        }
    }
}

impl AvsLogic {
    /// A fresh contract owned by `attestation_center`.
    pub fn new(attestation_center: AccountId) -> (r: AvsLogic)
        ensures
            r@ == initial_view(attestation_center@),
    {
        let r = AvsLogic {
            request_id: 0,
            attestation_center,
            models: ModelRegistry::new(),
        };
        proof {
            assert(r@.models =~= Map::<Seq<char>, Seq<char>>::empty());
        }
        r
    }

    /// Rebuilds a contract from stored parts: the owning account, the
    /// request counter, and the registered models as name/account pairs,
    /// applied in order with the last pair for a name winning.
    pub fn from_parts(
        attestation_center: AccountId,
        request_id: u64,
        models: Vec<(String, AccountId)>,
    ) -> (r: AvsLogic)
        ensures
            r@.attestation_center == attestation_center@,
            r@.request_id == request_id,
            r@.models == pairs_map(models@),
    {
        let mut registry = ModelRegistry::new();
        let n = models.len();
        let mut i: usize = 0;
        proof {
            assert(models@.take(0) =~= Seq::<(String, AccountId)>::empty());
        }
        while i < n
            invariant
                n == models@.len(),
                i <= n,
                registry@ == pairs_map(models@.take(i as int)),
            decreases n - i,
        {
            let name = models[i].0.clone();
            let account = models[i].1.clone();
            registry.upsert(name, account);
            proof {
                assert(models@.take(i + 1).drop_last() =~= models@.take(i as int));
                assert(models@.take(i + 1).last() == models@[i as int]);
            }
            i += 1;
        }
        proof {
            assert(models@.take(n as int) =~= models@);
        }
        AvsLogic { attestation_center, request_id, models: registry }
    }

    /// The registered models as name/account pairs: exactly the contents
    /// of the registry, each name once.
    pub fn model_entries(&self) -> (r: Vec<(String, AccountId)>)
        ensures
            forall|i: int|
                0 <= i < r@.len() ==> self@.models.contains_key(#[trigger] r@[i].0@)
                    && self@.models[r@[i].0@] == r@[i].1@,
            forall|k: Seq<char>|
                self@.models.contains_key(k) ==> exists|i: int| 0 <= i < r@.len()
                    && #[trigger] r@[i].0@ == k,
            forall|i: int, j: int| 0 <= i < j < r@.len() ==> r@[i].0@ != r@[j].0@,
    {
        self.models.pairs()
    }

    /// The number of task submissions accepted so far.
    pub fn request_id(&self) -> (r: u64)
        ensures
            r == self@.request_id,
    {
        self.request_id
    }

    /// The account this contract accepts task submissions from.
    pub fn attestation_center(&self) -> (r: &AccountId)
        ensures
            r@ == self@.attestation_center,
    {
        &self.attestation_center
    }

    /// The callback payload for the next task submission: the JSON object
    /// that names the request about to be created.
    pub fn next_yield_payload(&self) -> (r: String)
        requires
            self@.request_id < u64::MAX,
        ensures
            r@ == yield_payload_text((self@.request_id + 1) as nat),
    {
        let mut s = String::from_str("{\"request_id\":");
        let dec = decimal_u64(self.request_id + 1);
        s.append(dec.as_str());
        s.append("}");
        s
    }

    /// Accepts one inbound task. The shell has already created the
    /// suspension point and hands over what the yield register held;
    /// this decides whether the submission completes.
    ///
    /// On a well-formed 32-byte token the counter moves up by one and the
    /// event to broadcast is returned. On a missing or malformed token the
    /// submission is refused with no state change at all: the shell must
    /// abort the whole call, so that no suspension is left dangling.
    ///
    /// The signature and approval fields are accepted but not validated
    /// here; vetting them is the attestation center's concern.
    pub fn before_task_submission(
        &mut self,
        _task_definition_id: u16,
        _performer_addr: AccountId,
        _proof_of_task: String,
        _is_approved: bool,
        _tp_signature: Vec<u8>,
        _ta_signature: [u128; 2],
        _operator_ids: Vec<u128>,
        yield_register: Option<Vec<u8>>,
    ) -> (r: Result<AvsEvent, TokenError>)
        requires
            old(self)@.request_id < u64::MAX,
        ensures
            match yield_register {
                Some(v) => if v@.len() == 32 {
                    &&& final(self)@ == submit_view(old(self)@)
                    &&& r matches Ok(ev)
                    &&& ev.model_name@ == "model_name"@
                    &&& ev.prompt@ == "prompt"@
                    &&& ev.yield_id@ == v@
                } else {
                    &&& final(self)@ == old(self)@
                    &&& r matches Err(e) && e == TokenError::TokenLength
                },
                None => {
                    &&& final(self)@ == old(self)@
                    &&& r matches Err(e) && e == TokenError::RegisterEmpty
                },
            },
    {
        match yield_register {
            None => Err(TokenError::RegisterEmpty),
            Some(v) => {
                if v.len() != 32 {
                    Err(TokenError::TokenLength)
                } else {
                    self.request_id = self.request_id + 1;
                    let yield_id = token_from_bytes(&v);
                    Ok(AvsEvent {
                        model_name: String::from_str("model_name"),
                        prompt: String::from_str("prompt"),
                        yield_id,
                    })
                }
            },
        }
    }

    /// Accepts an external answer for the suspension named by `yield_id`
    /// and returns the resumption instruction for the shell: the token as
    /// given, and the answer encoded as JSON answer bytes.
    ///
    /// The token itself is the capability: whoever presents one may answer.
    /// Whether the token still names a pending suspension is the host's
    /// decision alone; delivery to an already-resumed or expired token is
    /// rejected there, never here.
    pub fn respond(&mut self, yield_id: [u8; 32], response: String) -> (r: ResumeAction)
        ensures
            final(self)@ == old(self)@,
            r.yield_id@ == yield_id@,
            r.payload@ == json_string_bytes(response@),
    {
        let payload = json_encode_string(&response);
        ResumeAction { yield_id, payload }
    }

    /// The resumption callback: turns the host's delivery verdict for one
    /// request into the terminal value of the original call. An answer
    /// becomes `Response::Answer`; any failure, timeout included, becomes
    /// `Response::TimeOutError` with the detail discarded.
    pub fn return_external_response(
        &mut self,
        _request_id: u32,
        response: Result<String, CallbackError>,
    ) -> (r: Response)
        ensures
            final(self)@ == old(self)@,
            match response {
                Ok(answer) => r == Response::Answer(answer),
                Err(_) => r == Response::TimeOutError,
            },
    {
        match response {
            Ok(answer) => Response::Answer(answer),
            Err(_) => Response::TimeOutError,
        }
    }

    /// Registers `model_name` as operated by `model_addr`, replacing any
    /// earlier registration of the same name, and returns the audit line
    /// for the shell to log. The reward is logged, not stored: disbursement
    /// is paid from the amount supplied again at that time.
    pub fn register_model(
        &mut self,
        model_addr: AccountId,
        model_name: String,
        reward: u128,
    ) -> (r: String)
        ensures
            final(self)@ == register_view(old(self)@, model_name@, model_addr@),
            r@ == register_log_text(model_name@, reward as nat),
    {
        let mut line = String::from_str("Model registered for ");
        line.append(model_name.as_str());
        line.append(" with reward ");
        let dec = decimal_u128(reward);
        line.append(dec.as_str());
        self.models.upsert(model_name, model_addr);
        line
    }

    /// Disburses the reward for one completed task. If `model_info` names a
    /// registered model, the transfer of exactly the supplied reward to the
    /// registered operator is returned, with the inference and reward audit
    /// lines; if not, no transfer happens and the single returned line says
    /// so. The lookup key is the registered name exactly, case-sensitive.
    pub fn after_task_submission(
        &mut self,
        _task_definition_id: u16,
        model_info: ModelInfo,
        _proof_of_task: String,
        _is_approved: bool,
        _tp_signature: Vec<u8>,
        _ta_signature: [u128; 2],
        _operator_ids: Vec<u128>,
    ) -> (r: (Option<RewardTransfer>, Vec<String>))
        ensures
            final(self)@ == old(self)@,
            old(self)@.models.contains_key(model_info.model_name@) ==> {
                &&& r.0 matches Some(t)
                &&& t.recipient@ == old(self)@.models[model_info.model_name@]
                &&& t.amount == model_info.reward
                &&& r.1@.len() == 2
                &&& r.1@[0]@ == inference_log_text(
                    model_info.model_name@,
                    old(self)@.models[model_info.model_name@],
                )
                &&& r.1@[1]@ == reward_log_text(
                    old(self)@.models[model_info.model_name@],
                    model_info.reward as nat,
                    model_info.model_name@,
                )
            },
            !old(self)@.models.contains_key(model_info.model_name@) ==> {
                &&& r.0 is None
                &&& r.1@.len() == 1
                &&& r.1@[0]@ == no_model_log_text(model_info.model_name@)
            },
    {
        let mut logs: Vec<String> = Vec::new();
        match self.models.lookup(&model_info.model_name) {
            Some(model_account) => {
                let recipient = model_account.clone();
                let mut inference = String::from_str("Running inference on model: ");
                inference.append(model_info.model_name.as_str());
                inference.append(" by ");
                inference.append(recipient.text());
                logs.push(inference);
                let mut rewarding = String::from_str("Rewarding performer: ");
                rewarding.append(recipient.text());
                rewarding.append(" with ");
                let dec = decimal_u128(model_info.reward);
                rewarding.append(dec.as_str());
                rewarding.append(" NEAR for using model: ");
                rewarding.append(model_info.model_name.as_str());
                logs.push(rewarding);
                let transfer = RewardTransfer { recipient, amount: model_info.reward };
                (Some(transfer), logs)
            },
            None => {
                let mut line = String::from_str("No model registered for ");
                line.append(model_info.model_name.as_str());
                logs.push(line);
                (None, logs)
            },
        }
    }
}

/// Law: registration keys are exact. After `name` is registered with
/// `account`, disbursement finds a model under `queried` exactly when
/// `queried` is `name` itself, character for character, or was registered
/// before; no normalization is applied, so names differing only in case are
/// different keys. The name just registered resolves to `account`.
pub proof fn lemma_lookup_key_is_exact(
    v: AvsLogicView,
    name: Seq<char>,
    account: Seq<char>,
    queried: Seq<char>,
)
    ensures
        register_view(v, name, account).models.contains_key(queried) <==> (queried == name
            || v.models.contains_key(queried)),
        queried == name ==> register_view(v, name, account).models[queried] == account,
{
}

/// One entry-point call, as it changes the contract state. A submission is
/// one completed `before_task_submission`; a registration is one
/// `register_model` with its name and account; answering and finalizing
/// leave the state alone, as their contracts state.
pub enum ContractOp {
    Submit,
    Register(Seq<char>, Seq<char>),
    Respond,
    Finalize,
    Disburse,
}

pub open spec fn apply_op(v: AvsLogicView, op: ContractOp) -> AvsLogicView {
    match op {
        ContractOp::Submit => submit_view(v),
        ContractOp::Register(name, account) => register_view(v, name, account),
        ContractOp::Respond => v,
        ContractOp::Finalize => v,
        ContractOp::Disburse => v,
    }
}

pub open spec fn apply_ops(v: AvsLogicView, ops: Seq<ContractOp>) -> AvsLogicView
    decreases ops.len(),
{
    if ops.len() == 0 {
        v
    } else {
        apply_op(apply_ops(v, ops.drop_last()), ops.last())
    }
}

pub open spec fn count_submissions(ops: Seq<ContractOp>) -> nat
    decreases ops.len(),
{
    if ops.len() == 0 {
        0
    } else {
        count_submissions(ops.drop_last()) + if ops.last() is Submit {
            1nat
        } else {
            0nat
        }
    }
}

/// Law: after any sequence of entry-point calls on a fresh contract, the
/// request counter equals the number of completed task submissions among
/// them, whatever the other calls did and however the requests resolved.
pub proof fn lemma_counter_counts_submissions(att: Seq<char>, ops: Seq<ContractOp>)
    requires
        count_submissions(ops) <= u64::MAX,
    ensures
        apply_ops(initial_view(att), ops).request_id == count_submissions(ops),
    decreases ops.len(),
{
    if ops.len() > 0 {
        lemma_counter_counts_submissions(att, ops.drop_last());
    }
}

} // verus!
