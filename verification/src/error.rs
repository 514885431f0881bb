//! Engine-level errors and their user-facing messages.
use vstd::prelude::*;
use crate::decode::DecodeError;
use crate::text::{decimal_text, u64_to_text};

verus! {

/// Errors of the engine as a whole.
#[derive(Debug, Clone, PartialEq, Eq)]
pub enum BdjaError {
    UnauthorizedCapability,
    Io(String),
    Decode(String),
    Database(String),
    Ipc(String),
    LimitsExceeded(String),
    Cancelled,
}

pub open spec fn bdja_message_spec(e: BdjaError) -> Seq<char> {
    match e {
        BdjaError::UnauthorizedCapability =>
            "Capacidad no autorizada: token de licencia invalido o expirado"@,
        BdjaError::Io(m) => "Error de E/S: "@ + m@,
        BdjaError::Decode(m) => "Error de decodificacion: "@ + m@,
        BdjaError::Database(m) => "Error en base de datos SQLite: "@ + m@,
        BdjaError::Ipc(m) => "Error de IPC: "@ + m@,
        BdjaError::LimitsExceeded(m) =>
            "El archivo excede los limites seguros (max 2 GB, max 3 horas): "@ + m@,
        BdjaError::Cancelled => "Operacion cancelada por el usuario"@,
    }
}

impl BdjaError {
    /// The message shown for this error.
    pub fn message(&self) -> (r: String)
        ensures
            r@ == bdja_message_spec(*self),
    {
        match self {
            BdjaError::UnauthorizedCapability => String::from_str(
                "Capacidad no autorizada: token de licencia invalido o expirado",
            ),
            BdjaError::Io(m) => prefixed("Error de E/S: ", m.as_str()),
            BdjaError::Decode(m) => prefixed("Error de decodificacion: ", m.as_str()),
            BdjaError::Database(m) => prefixed("Error en base de datos SQLite: ", m.as_str()),
            BdjaError::Ipc(m) => prefixed("Error de IPC: ", m.as_str()),
            BdjaError::LimitsExceeded(m) => prefixed(
                "El archivo excede los limites seguros (max 2 GB, max 3 horas): ",
                m.as_str(),
            ),
            BdjaError::Cancelled => String::from_str("Operacion cancelada por el usuario"),
        }
    }
}

/// `prefix` followed by `rest`.
pub fn prefixed(prefix: &str, rest: &str) -> (r: String)
    ensures
        r@ == prefix@ + rest@,
{
    let mut s = String::from_str(prefix);
    s.append(rest);
    s
}

/// `prefix`, `middle`, then `suffix`.
pub fn enclosed(prefix: &str, middle: &str, suffix: &str) -> (r: String)
    ensures
        r@ == prefix@ + middle@ + suffix@,
{
    let mut s = String::from_str(prefix);
    s.append(middle);
    s.append(suffix);
    s
}

pub open spec fn decode_message_spec(e: DecodeError) -> Seq<char> {
    match e {
        DecodeError::Io(m) => "Error de E/S: "@ + m@,
        DecodeError::ZeroLength => "Archivo vacio o de longitud cero"@,
        DecodeError::FileTooLarge(n) => "Archivo excede el limite maximo de 2 GB ("@ + decimal_text(
            n as nat,
        ) + " bytes)"@,
        DecodeError::DurationExceeded(n) => "Duracion excede el limite maximo de 3 horas ("@
            + decimal_text(n as nat) + " ms)"@,
        DecodeError::Unsupported(m) => "Formato o códec no soportado por el motor: "@ + m@,
        DecodeError::UnrecognizedFormat(m) => "Formato o contenedor no reconocido por el motor: "@
            + m@,
        DecodeError::CorruptedHeader(m) => "Cabecera o flujo de audio corrupto: "@ + m@,
        DecodeError::NoAudioTrack => "No se encontraron pistas de audio en el archivo"@,
        DecodeError::DecoderInit(m) => "Error al instanciar el decodificador: "@ + m@,
        DecodeError::PacketDecode(m) => "Error durante la decodificacion de paquetes: "@ + m@,
        DecodeError::Symphonia(m) => "Error de Symphonia: "@ + m@,
    }
}

impl DecodeError {
    /// The message shown for this error.
    pub fn message(&self) -> (r: String)
        ensures
            r@ == decode_message_spec(*self),
    {
        match self {
            DecodeError::Io(m) => prefixed("Error de E/S: ", m.as_str()),
            DecodeError::ZeroLength => String::from_str("Archivo vacio o de longitud cero"),
            DecodeError::FileTooLarge(n) => {
                let t = u64_to_text(*n);
                enclosed("Archivo excede el limite maximo de 2 GB (", t.as_str(), " bytes)")
            },
            DecodeError::DurationExceeded(n) => {
                let t = u64_to_text(*n);
                enclosed("Duracion excede el limite maximo de 3 horas (", t.as_str(), " ms)")
            },
            DecodeError::Unsupported(m) => prefixed(
                "Formato o códec no soportado por el motor: ",
                m.as_str(),
            ),
            DecodeError::UnrecognizedFormat(m) => prefixed(
                "Formato o contenedor no reconocido por el motor: ",
                m.as_str(),
            ),
            DecodeError::CorruptedHeader(m) => prefixed(
                "Cabecera o flujo de audio corrupto: ",
                m.as_str(),
            ),
            DecodeError::NoAudioTrack => String::from_str(
                "No se encontraron pistas de audio en el archivo",
            ),
            DecodeError::DecoderInit(m) => prefixed(
                "Error al instanciar el decodificador: ",
                m.as_str(),
            ),
            DecodeError::PacketDecode(m) => prefixed(
                "Error durante la decodificacion de paquetes: ",
                m.as_str(),
            ),
            DecodeError::Symphonia(m) => prefixed("Error de Symphonia: ", m.as_str()),
        }
    }
}

} // verus!
