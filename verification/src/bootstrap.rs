//! Bringing up the network stack: attach the interface, install the source
//! address, install the default route. The three steps run once, in this
//! order, and the first that fails ends the attempt.

use vstd::prelude::*;
use crate::config::NetworkParameters;
use crate::ipv4::Ipv4Address;
use crate::network::Ipv4Network;

verus! {

/// Where the bring-up stands.
#[derive(Clone, Copy, Debug, PartialEq, Eq, Hash, Structural)]
pub enum BootstrapState {
    /// The channel is being attached to the interface.
    AttachingInterface,
    /// The source address is being installed on the interface.
    InstallingAddress,
    /// The default route is being installed.
    InstallingRoute,
    /// All three steps succeeded: the stack can carry traffic.
    Ready,
    /// A step failed. Nothing more is attempted.
    Aborted,
}

/// What the bring-up asks of its driver.
#[derive(Clone, Copy, Debug, PartialEq, Eq, Hash, Structural)]
pub enum BootstrapAction {
    /// Hand the link-layer channel to the stack, under the interface's name.
    AttachInterface,
    /// Give the interface this address and prefix length.
    InstallAddress { network: Ipv4Network },
    /// Route `destination` through `gateway`, out of the interface.
    InstallRoute { destination: Ipv4Network, gateway: Ipv4Address },
    /// The stack is up: go on to the socket and the worker.
    Proceed,
    /// Give up and end the process.
    Abort,
}

/// The destination of the default route, `0.0.0.0/0`.
pub open spec fn default_route() -> Ipv4Network {
    Ipv4Network::spec_new(Ipv4Address { bits: 0 }, 0)
}

/// The bring-up's transition: given whether the step under way succeeded,
/// the next state and what to do next.
pub open spec fn spec_advance(
    state: BootstrapState,
    succeeded: bool,
    network: Ipv4Network,
    gateway: Ipv4Address,
) -> (BootstrapState, BootstrapAction) {
    match state {
        BootstrapState::Ready => (BootstrapState::Ready, BootstrapAction::Proceed),
        BootstrapState::Aborted => (BootstrapState::Aborted, BootstrapAction::Abort),
        _ => if !succeeded {
            (BootstrapState::Aborted, BootstrapAction::Abort)
        } else {
            match state {
                BootstrapState::AttachingInterface => (
                    BootstrapState::InstallingAddress,
                    BootstrapAction::InstallAddress { network },
                ),
                BootstrapState::InstallingAddress => (
                    BootstrapState::InstallingRoute,
                    BootstrapAction::InstallRoute { destination: default_route(), gateway },
                ),
                _ => (BootstrapState::Ready, BootstrapAction::Proceed),
            }
        },
    }
}

/// The state in which the bring-up starts and its first step.
pub fn begin() -> (first: (BootstrapState, BootstrapAction))
    ensures
        first == (BootstrapState::AttachingInterface, BootstrapAction::AttachInterface),
{
    (BootstrapState::AttachingInterface, BootstrapAction::AttachInterface)
}

/// Takes the outcome of the step under way and says what comes next.
pub fn advance(state: BootstrapState, succeeded: bool, params: &NetworkParameters) -> (next: (
    BootstrapState,
    BootstrapAction,
))
    ensures
        next == spec_advance(state, succeeded, params.source_network, params.gateway),
{
    match state {
        BootstrapState::Ready => (BootstrapState::Ready, BootstrapAction::Proceed),
        BootstrapState::Aborted => (BootstrapState::Aborted, BootstrapAction::Abort),
        BootstrapState::AttachingInterface => if succeeded {
            (
                BootstrapState::InstallingAddress,
                BootstrapAction::InstallAddress { network: params.source_network },
            )
        } else {
            (BootstrapState::Aborted, BootstrapAction::Abort)
        },
        BootstrapState::InstallingAddress => if succeeded {
            (
                BootstrapState::InstallingRoute,
                BootstrapAction::InstallRoute {
                    destination: Ipv4Network::default_route(),
                    gateway: params.gateway,
                },
            )
        } else {
            (BootstrapState::Aborted, BootstrapAction::Abort)
        },
        BootstrapState::InstallingRoute => if succeeded {
            (BootstrapState::Ready, BootstrapAction::Proceed)
        } else {
            (BootstrapState::Aborted, BootstrapAction::Abort)
        },
    }
}

/// Where the bring-up stands after a series of step outcomes.
pub open spec fn state_after(outcomes: Seq<bool>, network: Ipv4Network, gateway: Ipv4Address) -> BootstrapState
    decreases outcomes.len(),
{
    if outcomes.len() == 0 {
        BootstrapState::AttachingInterface
    } else {
        spec_advance(
            state_after(outcomes.drop_last(), network, gateway),
            outcomes.last(),
            network,
            gateway,
        ).0
    }
}

/// The stack comes up if and only if each of the three steps succeeded: no
/// series of outcomes reaches `Ready` around a failed step, and a failure
/// among the first three leaves the bring-up aborted for good.
pub proof fn lemma_all_or_nothing(outcomes: Seq<bool>, network: Ipv4Network, gateway: Ipv4Address)
    ensures
        state_after(outcomes, network, gateway) == BootstrapState::Ready <==> outcomes.len() >= 3
            && outcomes[0] && outcomes[1] && outcomes[2],
        state_after(outcomes, network, gateway) == BootstrapState::Aborted <==> (exists|i: int|
            0 <= i < 3 && i < outcomes.len() && !outcomes[i] && forall|j: int|
                0 <= j < i ==> outcomes[j]),
        state_after(outcomes, network, gateway) == BootstrapState::AttachingInterface
            <==> outcomes.len() == 0,
        state_after(outcomes, network, gateway) == BootstrapState::InstallingAddress
            <==> outcomes.len() == 1 && outcomes[0],
        state_after(outcomes, network, gateway) == BootstrapState::InstallingRoute
            <==> outcomes.len() == 2 && outcomes[0] && outcomes[1],
    decreases outcomes.len(),
{
    if outcomes.len() > 0 {
        let earlier = outcomes.drop_last();
        lemma_all_or_nothing(earlier, network, gateway);
        assert(forall|i: int| 0 <= i < earlier.len() ==> earlier[i] == outcomes[i]);
        let n = outcomes.len() - 1;
        assert(outcomes.last() == outcomes[n]);
        if state_after(outcomes, network, gateway) == BootstrapState::Aborted {
            if state_after(earlier, network, gateway) == BootstrapState::Aborted {
                let i = choose|i: int|
                    0 <= i < 3 && i < earlier.len() && !earlier[i] && forall|j: int|
                        0 <= j < i ==> earlier[j];
                assert(0 <= i < 3 && i < outcomes.len() && !outcomes[i] && forall|j: int|
                    0 <= j < i ==> outcomes[j]);
            } else {
                assert(0 <= n < 3 && n < outcomes.len() && !outcomes[n] && forall|j: int|
                    0 <= j < n ==> outcomes[j]);
            }
        }
    }
}

} // verus!
