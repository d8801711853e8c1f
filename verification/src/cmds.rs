//! The tool's command surface as plain data, and the one command computed
//! entirely in the library: printing the subnet decomposition of a range.
//! Argument parsing, environment wiring and transport live outside; they hand
//! these values in.

use vstd::prelude::*;

use crate::{Error, Msg, PrettyJson};
use crate::hex_field::{HexDevAddr, HexEui, HexNetID};
use crate::region::Region;
use crate::subnet::{is_subnet_decomposition, json_of_blocks, DevaddrConstraint, SubnetBlock};

verus! {

#[derive(Debug, Clone)]
pub struct Cli {
    pub command: Commands,
    pub config_host: String,
    pub keypair: String,
}

#[derive(Debug, Clone)]
pub enum Commands {
    Env { command: EnvCommands },
    Route { command: RouteCommands },
    Org { command: OrgCommands },
    SessionKeyFilter { command: SessionKeyFilterCommands },
    SubnetMask(SubnetMask),
    RegionParams { command: RegionParamsCommands },
}

#[derive(Debug, Clone)]
pub enum EnvCommands {
    Init,
    Info(EnvInfo),
    GenerateKeypair(GenerateKeypair),
}

#[derive(Debug, Clone)]
pub enum RouteCommands {
    List(ListRoutes),
    Get(GetRoute),
    New(NewRoute),
    Update { command: RouteUpdateCommand },
    Euis { command: EuiCommands },
    Devaddrs { command: DevaddrCommands },
    Delete(DeleteRoute),
    Activate(ActivateRoute),
    Deactivate(DeactivateRoute),
}

#[derive(Debug, Clone)]
pub struct ListRoutes {
    pub oui: u64,
    pub keypair: String,
    pub config_host: String,
    pub commit: bool,
}

#[derive(Debug, Clone)]
pub struct GetRoute {
    pub route_id: String,
    pub keypair: String,
    pub config_host: String,
}

#[derive(Debug, Clone)]
pub struct NewRoute {
    pub net_id: HexNetID,
    pub oui: u64,
    pub max_copies: u32,
    pub keypair: String,
    pub config_host: String,
    pub commit: bool,
}

#[derive(Debug, Clone)]
pub struct DeleteRoute {
    pub route_id: String,
    pub keypair: String,
    pub config_host: String,
    pub commit: bool,
}

#[derive(Debug, Clone)]
pub struct ActivateRoute {
    pub route_id: String,
    pub keypair: String,
    pub config_host: String,
    pub commit: bool,
}

#[derive(Debug, Clone)]
pub struct DeactivateRoute {
    pub route_id: String,
    pub keypair: String,
    pub config_host: String,
    pub commit: bool,
}

#[derive(Debug, Clone)]
pub enum RouteUpdateCommand {
    MaxCopies(UpdateMaxCopies),
    Server(UpdateServer),
    Http(UpdateHttp),
    AddGwmpRegion(AddGwmpRegion),
    RemoveGwmpRegion(RemoveGwmpRegion),
    PacketRouter(UpdatePacketRouter),
}

#[derive(Debug, Clone)]
pub struct UpdateMaxCopies {
    pub route_id: String,
    pub max_copies: u32,
    pub keypair: String,
    pub config_host: String,
    pub commit: bool,
}

#[derive(Debug, Clone)]
pub struct UpdateServer {
    pub route_id: String,
    pub host: String,
    pub port: u32,
    pub keypair: String,
    pub config_host: String,
    pub commit: bool,
}

#[derive(Debug, Clone)]
pub struct UpdateHttp {
    pub route_id: String,
    pub dedupe_timeout: u32,
    pub path: String,
    pub auth_header: Option<String>,
    pub keypair: String,
    pub config_host: String,
    pub commit: bool,
}

#[derive(Debug, Clone)]
pub struct UpdatePacketRouter {
    pub route_id: String,
    pub keypair: String,
    pub config_host: String,
    pub commit: bool,
}

#[derive(Debug, Clone)]
pub struct AddGwmpRegion {
    pub route_id: String,
    pub region: Region,
    pub region_port: u32,
    pub keypair: String,
    pub config_host: String,
    pub commit: bool,
}

#[derive(Debug, Clone)]
pub struct RemoveGwmpRegion {
    pub route_id: String,
    pub region: Region,
    pub keypair: String,
    pub config_host: String,
    pub commit: bool,
}

#[derive(Debug, Clone)]
pub enum EuiCommands {
    List(ListEuis),
    Add(AddEui),
    Remove(RemoveEui),
    Clear(ClearEuis),
}

#[derive(Debug, Clone)]
pub enum DevaddrCommands {
    List(ListDevaddrs),
    Add(AddDevaddr),
    Remove(RemoveDevaddr),
    SubnetMask(RouteSubnetMask),
    Clear(ClearDevaddrs),
}

#[derive(Debug, Clone)]
pub enum OrgCommands {
    List(ListOrgs),
    Get(GetOrg),
    CreateHelium(CreateHelium),
    CreateRoaming(CreateRoaming),
}

#[derive(Debug, Clone)]
pub enum SessionKeyFilterCommands {
    List(ListFilters),
    Get(GetFilters),
    Add(AddFilter),
    Remove(RemoveFilter),
}

#[derive(Debug, Clone)]
pub struct ListFilters {
    pub oui: u64,
    pub keypair: String,
    pub config_host: String,
}

#[derive(Debug, Clone)]
pub struct GetFilters {
    pub oui: u64,
    pub devaddr: HexDevAddr,
    pub keypair: String,
    pub config_host: String,
}

#[derive(Debug, Clone)]
pub struct AddFilter {
    pub oui: u64,
    pub devaddr: HexDevAddr,
    pub session_key: String,
    pub config_host: String,
    pub keypair: String,
    pub commit: bool,
}

#[derive(Debug, Clone)]
pub struct RemoveFilter {
    pub oui: u64,
    pub devaddr: HexDevAddr,
    pub session_key: String,
    pub config_host: String,
    pub keypair: String,
    pub commit: bool,
}

#[derive(Debug, Clone)]
pub struct ListEuis {
    pub route_id: String,
    pub keypair: String,
    pub config_host: String,
}

#[derive(Debug, Clone)]
pub struct AddEui {
    pub dev_eui: HexEui,
    pub app_eui: HexEui,
    pub route_id: String,
    pub config_host: String,
    pub keypair: String,
    pub commit: bool,
}

#[derive(Debug, Clone)]
pub struct RemoveEui {
    pub dev_eui: HexEui,
    pub app_eui: HexEui,
    pub route_id: String,
    pub config_host: String,
    pub keypair: String,
    pub commit: bool,
}

#[derive(Debug, Clone)]
pub struct ClearEuis {
    pub route_id: String,
    pub keypair: String,
    pub config_host: String,
    pub commit: bool,
}

#[derive(Debug, Clone)]
pub struct ListDevaddrs {
    pub route_id: String,
    pub keypair: String,
    pub config_host: String,
}

#[derive(Debug, Clone)]
pub struct AddDevaddr {
    pub start_addr: HexDevAddr,
    pub end_addr: HexDevAddr,
    pub route_id: String,
    pub config_host: String,
    pub keypair: String,
    pub commit: bool,
}

#[derive(Debug, Clone)]
pub struct RemoveDevaddr {
    pub start_addr: HexDevAddr,
    pub end_addr: HexDevAddr,
    pub route_id: String,
    pub config_host: String,
    pub keypair: String,
    pub commit: bool,
}

#[derive(Debug, Clone)]
pub struct ClearDevaddrs {
    pub route_id: String,
    pub keypair: String,
    pub config_host: String,
    pub commit: bool,
}

#[derive(Debug, Clone)]
pub struct RouteSubnetMask {
    pub route_id: String,
    pub keypair: String,
    pub config_host: String,
}

/// The inclusive range whose subnet decomposition is to be printed.
#[derive(Debug, Clone, Copy)]
pub struct SubnetMask {
    pub start_addr: HexDevAddr,
    pub end_addr: HexDevAddr,
}

#[derive(Debug, Clone)]
pub struct EnvInfo {
    pub config_host: Option<String>,
    pub keypair: Option<String>,
    pub net_id: Option<HexNetID>,
    pub oui: Option<u64>,
    pub max_copies: Option<u32>,
}

#[derive(Debug, Clone)]
pub struct GenerateKeypair {
    pub out_file: String,
    pub commit: bool,
}

#[derive(Debug, Clone)]
pub struct ListOrgs {
    pub config_host: String,
}

#[derive(Debug, Clone)]
pub struct GetOrg {
    pub oui: u64,
    pub config_host: String,
}

#[derive(Debug, Clone)]
pub struct CreateHelium {
    pub owner: String,
    pub payer: String,
    pub devaddr_count: u64,
    pub keypair: String,
    pub config_host: String,
    pub commit: bool,
}

#[derive(Debug, Clone)]
pub struct CreateRoaming {
    pub owner: String,
    pub payer: String,
    pub net_id: HexNetID,
    pub keypair: String,
    pub config_host: String,
    pub commit: bool,
}

#[derive(Debug, Clone)]
pub enum RegionParamsCommands {
    Push(PushRegionParams),
}

#[derive(Debug, Clone)]
pub struct PushRegionParams {
    pub region: Region,
    pub params_file: String,
    pub index_file: Option<String>,
    pub keypair: String,
    pub config_host: String,
    pub commit: bool,
}

/// Decompose the given range and report its rendering; rejected exactly when
/// the range is inverted.
pub fn subnet_mask(args: SubnetMask) -> (r: Result<Msg, Error>)
    requires
        args.start_addr.wf(),
        args.end_addr.wf(),
    ensures
        r matches Ok(m) ==> args.start_addr.0 <= args.end_addr.0
            && (m matches Msg::Success(s) && (exists|blocks: Seq<SubnetBlock>|
                is_subnet_decomposition(
                    blocks,
                    args.start_addr.0 as int,
                    args.end_addr.0 as int,
                ) && s@ == json_of_blocks(blocks))),
        r matches Err(e) ==> e is InvalidRange && args.end_addr.0 < args.start_addr.0,
{
    let devaddr_range = match DevaddrConstraint::new(args.start_addr, args.end_addr) {
        Ok(c) => c,
        Err(e) => {
            return Err(e);
        }
    };
    let blocks = devaddr_range.to_subnet();
    let text = blocks.pretty_json();
    proof {
        assert(is_subnet_decomposition(
            blocks@,
            args.start_addr.0 as int,
            args.end_addr.0 as int,
        ) && text@ == json_of_blocks(blocks@));
    }
    Msg::ok(text)
}

} // verus!
