//! Compiled contract definitions and the class identifier each one has.

use vstd::prelude::*;
use vstd::string::StringExecFns;
use crate::felt::Felt;

verus! {

/// `starknet::core::types::contract::SierraClass`, a parsed contract
/// definition; nothing of its contents is known here.
#[verifier::external_type_specification]
#[verifier::external_body]
pub struct ExSierraClass(starknet::core::types::contract::SierraClass);

/// `serde_json::Error`, why a text was not taken.
#[verifier::external_type_specification]
#[verifier::external_body]
pub struct ExJsonError(serde_json::Error);

/// `starknet::core::types::contract::ComputeClassHashError`, why a
/// definition has no class identifier.
#[verifier::external_type_specification]
#[verifier::external_body]
pub struct ExComputeClassHashError(starknet::core::types::contract::ComputeClassHashError);

/// The definition that the parser reads in a text, where it reads one.
pub uninterp spec fn definition_of(blob: Seq<u8>) -> Option<
    starknet::core::types::contract::SierraClass,
>;

/// The class identifier that a definition hashes to, where it has one.
pub uninterp spec fn class_hash_of(
    definition: starknet::core::types::contract::SierraClass,
) -> Option<nat>;

/// Calls `serde_json::from_slice` for a Sierra class. Whether it takes a
/// text, and the definition that it reads in it, depend on the text alone;
/// nothing is claimed of which texts it takes, nor of what it reads in them.
#[verifier::external_body]
fn parse_definition(blob: &[u8]) -> (r: Result<
    starknet::core::types::contract::SierraClass,
    serde_json::Error,
>)
    ensures
        r is Ok <==> definition_of(blob@) is Some,
        r matches Ok(definition) ==> definition_of(blob@) == Some(definition),
{
    serde_json::from_slice(blob)
}

/// Calls `SierraClass::class_hash`. Whether a definition has an identifier,
/// and which, depend on the definition alone; nothing is claimed of the
/// identifier but that it is a field element.
#[verifier::external_body]
fn definition_class_hash(definition: &starknet::core::types::contract::SierraClass) -> (r: Result<
    Felt,
    starknet::core::types::contract::ComputeClassHashError,
>)
    ensures
        r is Ok <==> class_hash_of(*definition) is Some,
        r matches Ok(class_id) ==> class_hash_of(*definition) == Some(class_id@),
{
    match definition.class_hash() {
        Ok(fe) => {
            let b = fe.to_bytes_be();
            Ok(Felt {
                high: u128::from_be_bytes(b[..16].try_into().unwrap()),
                low: u128::from_be_bytes(b[16..].try_into().unwrap()),
            })
        },
        Err(e) => Err(e),
    }
}

/// Why a definition gave no artifact.
#[derive(Clone, Copy, Debug, PartialEq, Eq, Structural)]
pub enum ArtifactError {
    /// The text is not a compiled contract definition.
    Malformed,
    /// The definition has no class identifier.
    Unhashable,
}

/// A compiled contract definition with its class identifier.
pub struct ClassArtifact {
    /// The definition as the compiler wrote it.
    pub definition: starknet::core::types::contract::SierraClass,
    /// The identifier of the class, derived from the definition.
    pub class_id: Felt,
}

impl ClassArtifact {
    /// The artifact of a definition and of what hashing it gave.
    pub fn assemble(
        definition: starknet::core::types::contract::SierraClass,
        hashed: Result<Felt, starknet::core::types::contract::ComputeClassHashError>,
    ) -> (r: Result<ClassArtifact, ArtifactError>)
        ensures
            hashed is Ok <==> r is Ok,
            r matches Ok(artifact) ==> artifact.class_id == hashed->Ok_0 && artifact.definition
                == definition,
            r matches Err(why) ==> why == ArtifactError::Unhashable,
    {
        match hashed {
            Ok(class_id) => Ok(ClassArtifact { definition, class_id }),
            Err(_) => Err(ArtifactError::Unhashable),
        }
    }

    /// The artifact of a parsed definition.
    pub fn from_definition(definition: starknet::core::types::contract::SierraClass) -> (r: Result<
        ClassArtifact,
        ArtifactError,
    >)
        ensures
            r is Ok <==> class_hash_of(definition) is Some,
            r matches Ok(artifact) ==> artifact.definition == definition && Some(artifact.class_id@)
                == class_hash_of(definition),
            r matches Err(why) ==> why == ArtifactError::Unhashable,
    {
        let hashed = definition_class_hash(&definition);
        ClassArtifact::assemble(definition, hashed)
    }

    /// The artifact in the text of a compiled contract definition: the
    /// definition that the text holds, with the identifier that it hashes to.
    /// A text that holds no definition is malformed; a definition without an
    /// identifier is unhashable.
    pub fn load(blob: &[u8]) -> (r: Result<ClassArtifact, ArtifactError>)
        ensures
            r is Ok <==> (definition_of(blob@) matches Some(definition) && class_hash_of(
                definition,
            ) is Some),
            r matches Ok(artifact) ==> Some(artifact.definition) == definition_of(blob@) && Some(
                artifact.class_id@,
            ) == class_hash_of(artifact.definition),
            r matches Err(why) ==> why == (if definition_of(blob@) is None {
                ArtifactError::Malformed
            } else {
                ArtifactError::Unhashable
            }),
    {
        match parse_definition(blob) {
            Ok(definition) => ClassArtifact::from_definition(definition),
            Err(_) => Err(ArtifactError::Malformed),
        }
    }
}

/// Where the compiled definition of a contract lies: the build output's
/// prefix, the contract's name and the extension.
pub fn artifact_path(prefix: &str, contract_name: &str) -> (r: String)
    ensures
        r@ == prefix@ + contract_name@ + ".sierra.json"@,
{
    String::from_str(prefix).concat(contract_name).concat(".sierra.json")
}

} // verus!
