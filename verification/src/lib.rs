//! Layered dissection of captured Ethernet frames, down to Modbus/TCP
//! messages.
//!
//! A frame is taken apart from the outside in: the Ethernet header selects
//! ARP, IPv4 or IPv6; the IP header selects UDP, TCP, ICMP or ICMPv6; and a
//! TCP segment with the Modbus port on one side is decoded as one of twelve
//! Modbus functions, request or reply. Every step takes a byte slice and
//! returns plain values. Nothing is kept from one frame to the next, and no
//! byte beyond a slice is ever read.
//!
//! * [`dissect`] holds the handlers of the layers and the reports they
//!   return; [`dissect::dissect`] runs them all on one frame.
//! * [`headers`] reads the headers below Modbus through pnet.
//! * [`packet::modbus_tcp`] holds the Modbus/TCP layouts, one module per
//!   function, and [`packet::modbus_tcp::message`] the decoder that picks
//!   among them.
//! * [`adapter`] makes an Ethernet frame for interfaces that deliver none.
//! * [`wire`] reads big-endian fields.
//!
//! Each executable function states its result as a spec function of the
//! bytes it was given, so what a frame is reported as can be read off the
//! spec functions alone.

pub mod adapter;
pub mod dissect;
pub mod headers;
pub mod packet;
pub mod wire;
