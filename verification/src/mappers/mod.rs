//! Cartridge mappers: how the CPU's $8000-$FFFF and the PPU's $0000-$1FFF
//! reach the cartridge's PRG-ROM and CHR-ROM banks.
pub mod mapper;
pub mod mapper_0;
pub mod mapper_1;
pub mod mapper_2;
