//! AES-128 byte-level primitives: the S-box and its inverse, the four round
//! operations on a 16-byte state (with their inverses), the Galois-field
//! multipliers used by MixColumns and the decryption T-tables, the AES-128 key
//! schedule, and the intermediate-state enumeration used by assessment mode.
//!
//! The state is addressed in the standard column-major 4x4 layout:
//! `state[r + 4 * c]` holds row `r` of column `c`.  All operations are total
//! on any 16-byte input.
use vstd::prelude::*;

verus! {

/// The standard AES forward S-box, as a specification-level table.
#[verifier::opaque]
pub open spec fn spec_sbox(b: u8) -> u8 {
    if b == 0 {
        0x63
    } else if b == 1 {
        0x7c
    } else if b == 2 {
        0x77
    } else if b == 3 {
        0x7b
    } else if b == 4 {
        0xf2
    } else if b == 5 {
        0x6b
    } else if b == 6 {
        0x6f
    } else if b == 7 {
        0xc5
    } else if b == 8 {
        0x30
    } else if b == 9 {
        0x01
    } else if b == 10 {
        0x67
    } else if b == 11 {
        0x2b
    } else if b == 12 {
        0xfe
    } else if b == 13 {
        0xd7
    } else if b == 14 {
        0xab
    } else if b == 15 {
        0x76
    } else if b == 16 {
        0xca
    } else if b == 17 {
        0x82
    } else if b == 18 {
        0xc9
    } else if b == 19 {
        0x7d
    } else if b == 20 {
        0xfa
    } else if b == 21 {
        0x59
    } else if b == 22 {
        0x47
    } else if b == 23 {
        0xf0
    } else if b == 24 {
        0xad
    } else if b == 25 {
        0xd4
    } else if b == 26 {
        0xa2
    } else if b == 27 {
        0xaf
    } else if b == 28 {
        0x9c
    } else if b == 29 {
        0xa4
    } else if b == 30 {
        0x72
    } else if b == 31 {
        0xc0
    } else if b == 32 {
        0xb7
    } else if b == 33 {
        0xfd
    } else if b == 34 {
        0x93
    } else if b == 35 {
        0x26
    } else if b == 36 {
        0x36
    } else if b == 37 {
        0x3f
    } else if b == 38 {
        0xf7
    } else if b == 39 {
        0xcc
    } else if b == 40 {
        0x34
    } else if b == 41 {
        0xa5
    } else if b == 42 {
        0xe5
    } else if b == 43 {
        0xf1
    } else if b == 44 {
        0x71
    } else if b == 45 {
        0xd8
    } else if b == 46 {
        0x31
    } else if b == 47 {
        0x15
    } else if b == 48 {
        0x04
    } else if b == 49 {
        0xc7
    } else if b == 50 {
        0x23
    } else if b == 51 {
        0xc3
    } else if b == 52 {
        0x18
    } else if b == 53 {
        0x96
    } else if b == 54 {
        0x05
    } else if b == 55 {
        0x9a
    } else if b == 56 {
        0x07
    } else if b == 57 {
        0x12
    } else if b == 58 {
        0x80
    } else if b == 59 {
        0xe2
    } else if b == 60 {
        0xeb
    } else if b == 61 {
        0x27
    } else if b == 62 {
        0xb2
    } else if b == 63 {
        0x75
    } else if b == 64 {
        0x09
    } else if b == 65 {
        0x83
    } else if b == 66 {
        0x2c
    } else if b == 67 {
        0x1a
    } else if b == 68 {
        0x1b
    } else if b == 69 {
        0x6e
    } else if b == 70 {
        0x5a
    } else if b == 71 {
        0xa0
    } else if b == 72 {
        0x52
    } else if b == 73 {
        0x3b
    } else if b == 74 {
        0xd6
    } else if b == 75 {
        0xb3
    } else if b == 76 {
        0x29
    } else if b == 77 {
        0xe3
    } else if b == 78 {
        0x2f
    } else if b == 79 {
        0x84
    } else if b == 80 {
        0x53
    } else if b == 81 {
        0xd1
    } else if b == 82 {
        0x00
    } else if b == 83 {
        0xed
    } else if b == 84 {
        0x20
    } else if b == 85 {
        0xfc
    } else if b == 86 {
        0xb1
    } else if b == 87 {
        0x5b
    } else if b == 88 {
        0x6a
    } else if b == 89 {
        0xcb
    } else if b == 90 {
        0xbe
    } else if b == 91 {
        0x39
    } else if b == 92 {
        0x4a
    } else if b == 93 {
        0x4c
    } else if b == 94 {
        0x58
    } else if b == 95 {
        0xcf
    } else if b == 96 {
        0xd0
    } else if b == 97 {
        0xef
    } else if b == 98 {
        0xaa
    } else if b == 99 {
        0xfb
    } else if b == 100 {
        0x43
    } else if b == 101 {
        0x4d
    } else if b == 102 {
        0x33
    } else if b == 103 {
        0x85
    } else if b == 104 {
        0x45
    } else if b == 105 {
        0xf9
    } else if b == 106 {
        0x02
    } else if b == 107 {
        0x7f
    } else if b == 108 {
        0x50
    } else if b == 109 {
        0x3c
    } else if b == 110 {
        0x9f
    } else if b == 111 {
        0xa8
    } else if b == 112 {
        0x51
    } else if b == 113 {
        0xa3
    } else if b == 114 {
        0x40
    } else if b == 115 {
        0x8f
    } else if b == 116 {
        0x92
    } else if b == 117 {
        0x9d
    } else if b == 118 {
        0x38
    } else if b == 119 {
        0xf5
    } else if b == 120 {
        0xbc
    } else if b == 121 {
        0xb6
    } else if b == 122 {
        0xda
    } else if b == 123 {
        0x21
    } else if b == 124 {
        0x10
    } else if b == 125 {
        0xff
    } else if b == 126 {
        0xf3
    } else if b == 127 {
        0xd2
    } else if b == 128 {
        0xcd
    } else if b == 129 {
        0x0c
    } else if b == 130 {
        0x13
    } else if b == 131 {
        0xec
    } else if b == 132 {
        0x5f
    } else if b == 133 {
        0x97
    } else if b == 134 {
        0x44
    } else if b == 135 {
        0x17
    } else if b == 136 {
        0xc4
    } else if b == 137 {
        0xa7
    } else if b == 138 {
        0x7e
    } else if b == 139 {
        0x3d
    } else if b == 140 {
        0x64
    } else if b == 141 {
        0x5d
    } else if b == 142 {
        0x19
    } else if b == 143 {
        0x73
    } else if b == 144 {
        0x60
    } else if b == 145 {
        0x81
    } else if b == 146 {
        0x4f
    } else if b == 147 {
        0xdc
    } else if b == 148 {
        0x22
    } else if b == 149 {
        0x2a
    } else if b == 150 {
        0x90
    } else if b == 151 {
        0x88
    } else if b == 152 {
        0x46
    } else if b == 153 {
        0xee
    } else if b == 154 {
        0xb8
    } else if b == 155 {
        0x14
    } else if b == 156 {
        0xde
    } else if b == 157 {
        0x5e
    } else if b == 158 {
        0x0b
    } else if b == 159 {
        0xdb
    } else if b == 160 {
        0xe0
    } else if b == 161 {
        0x32
    } else if b == 162 {
        0x3a
    } else if b == 163 {
        0x0a
    } else if b == 164 {
        0x49
    } else if b == 165 {
        0x06
    } else if b == 166 {
        0x24
    } else if b == 167 {
        0x5c
    } else if b == 168 {
        0xc2
    } else if b == 169 {
        0xd3
    } else if b == 170 {
        0xac
    } else if b == 171 {
        0x62
    } else if b == 172 {
        0x91
    } else if b == 173 {
        0x95
    } else if b == 174 {
        0xe4
    } else if b == 175 {
        0x79
    } else if b == 176 {
        0xe7
    } else if b == 177 {
        0xc8
    } else if b == 178 {
        0x37
    } else if b == 179 {
        0x6d
    } else if b == 180 {
        0x8d
    } else if b == 181 {
        0xd5
    } else if b == 182 {
        0x4e
    } else if b == 183 {
        0xa9
    } else if b == 184 {
        0x6c
    } else if b == 185 {
        0x56
    } else if b == 186 {
        0xf4
    } else if b == 187 {
        0xea
    } else if b == 188 {
        0x65
    } else if b == 189 {
        0x7a
    } else if b == 190 {
        0xae
    } else if b == 191 {
        0x08
    } else if b == 192 {
        0xba
    } else if b == 193 {
        0x78
    } else if b == 194 {
        0x25
    } else if b == 195 {
        0x2e
    } else if b == 196 {
        0x1c
    } else if b == 197 {
        0xa6
    } else if b == 198 {
        0xb4
    } else if b == 199 {
        0xc6
    } else if b == 200 {
        0xe8
    } else if b == 201 {
        0xdd
    } else if b == 202 {
        0x74
    } else if b == 203 {
        0x1f
    } else if b == 204 {
        0x4b
    } else if b == 205 {
        0xbd
    } else if b == 206 {
        0x8b
    } else if b == 207 {
        0x8a
    } else if b == 208 {
        0x70
    } else if b == 209 {
        0x3e
    } else if b == 210 {
        0xb5
    } else if b == 211 {
        0x66
    } else if b == 212 {
        0x48
    } else if b == 213 {
        0x03
    } else if b == 214 {
        0xf6
    } else if b == 215 {
        0x0e
    } else if b == 216 {
        0x61
    } else if b == 217 {
        0x35
    } else if b == 218 {
        0x57
    } else if b == 219 {
        0xb9
    } else if b == 220 {
        0x86
    } else if b == 221 {
        0xc1
    } else if b == 222 {
        0x1d
    } else if b == 223 {
        0x9e
    } else if b == 224 {
        0xe1
    } else if b == 225 {
        0xf8
    } else if b == 226 {
        0x98
    } else if b == 227 {
        0x11
    } else if b == 228 {
        0x69
    } else if b == 229 {
        0xd9
    } else if b == 230 {
        0x8e
    } else if b == 231 {
        0x94
    } else if b == 232 {
        0x9b
    } else if b == 233 {
        0x1e
    } else if b == 234 {
        0x87
    } else if b == 235 {
        0xe9
    } else if b == 236 {
        0xce
    } else if b == 237 {
        0x55
    } else if b == 238 {
        0x28
    } else if b == 239 {
        0xdf
    } else if b == 240 {
        0x8c
    } else if b == 241 {
        0xa1
    } else if b == 242 {
        0x89
    } else if b == 243 {
        0x0d
    } else if b == 244 {
        0xbf
    } else if b == 245 {
        0xe6
    } else if b == 246 {
        0x42
    } else if b == 247 {
        0x68
    } else if b == 248 {
        0x41
    } else if b == 249 {
        0x99
    } else if b == 250 {
        0x2d
    } else if b == 251 {
        0x0f
    } else if b == 252 {
        0xb0
    } else if b == 253 {
        0x54
    } else if b == 254 {
        0xbb
    } else {
        0x16
    }
}

/// The standard AES inverse S-box, as a specification-level table.
#[verifier::opaque]
pub open spec fn spec_inv_sbox(b: u8) -> u8 {
    if b == 0 {
        0x52
    } else if b == 1 {
        0x09
    } else if b == 2 {
        0x6a
    } else if b == 3 {
        0xd5
    } else if b == 4 {
        0x30
    } else if b == 5 {
        0x36
    } else if b == 6 {
        0xa5
    } else if b == 7 {
        0x38
    } else if b == 8 {
        0xbf
    } else if b == 9 {
        0x40
    } else if b == 10 {
        0xa3
    } else if b == 11 {
        0x9e
    } else if b == 12 {
        0x81
    } else if b == 13 {
        0xf3
    } else if b == 14 {
        0xd7
    } else if b == 15 {
        0xfb
    } else if b == 16 {
        0x7c
    } else if b == 17 {
        0xe3
    } else if b == 18 {
        0x39
    } else if b == 19 {
        0x82
    } else if b == 20 {
        0x9b
    } else if b == 21 {
        0x2f
    } else if b == 22 {
        0xff
    } else if b == 23 {
        0x87
    } else if b == 24 {
        0x34
    } else if b == 25 {
        0x8e
    } else if b == 26 {
        0x43
    } else if b == 27 {
        0x44
    } else if b == 28 {
        0xc4
    } else if b == 29 {
        0xde
    } else if b == 30 {
        0xe9
    } else if b == 31 {
        0xcb
    } else if b == 32 {
        0x54
    } else if b == 33 {
        0x7b
    } else if b == 34 {
        0x94
    } else if b == 35 {
        0x32
    } else if b == 36 {
        0xa6
    } else if b == 37 {
        0xc2
    } else if b == 38 {
        0x23
    } else if b == 39 {
        0x3d
    } else if b == 40 {
        0xee
    } else if b == 41 {
        0x4c
    } else if b == 42 {
        0x95
    } else if b == 43 {
        0x0b
    } else if b == 44 {
        0x42
    } else if b == 45 {
        0xfa
    } else if b == 46 {
        0xc3
    } else if b == 47 {
        0x4e
    } else if b == 48 {
        0x08
    } else if b == 49 {
        0x2e
    } else if b == 50 {
        0xa1
    } else if b == 51 {
        0x66
    } else if b == 52 {
        0x28
    } else if b == 53 {
        0xd9
    } else if b == 54 {
        0x24
    } else if b == 55 {
        0xb2
    } else if b == 56 {
        0x76
    } else if b == 57 {
        0x5b
    } else if b == 58 {
        0xa2
    } else if b == 59 {
        0x49
    } else if b == 60 {
        0x6d
    } else if b == 61 {
        0x8b
    } else if b == 62 {
        0xd1
    } else if b == 63 {
        0x25
    } else if b == 64 {
        0x72
    } else if b == 65 {
        0xf8
    } else if b == 66 {
        0xf6
    } else if b == 67 {
        0x64
    } else if b == 68 {
        0x86
    } else if b == 69 {
        0x68
    } else if b == 70 {
        0x98
    } else if b == 71 {
        0x16
    } else if b == 72 {
        0xd4
    } else if b == 73 {
        0xa4
    } else if b == 74 {
        0x5c
    } else if b == 75 {
        0xcc
    } else if b == 76 {
        0x5d
    } else if b == 77 {
        0x65
    } else if b == 78 {
        0xb6
    } else if b == 79 {
        0x92
    } else if b == 80 {
        0x6c
    } else if b == 81 {
        0x70
    } else if b == 82 {
        0x48
    } else if b == 83 {
        0x50
    } else if b == 84 {
        0xfd
    } else if b == 85 {
        0xed
    } else if b == 86 {
        0xb9
    } else if b == 87 {
        0xda
    } else if b == 88 {
        0x5e
    } else if b == 89 {
        0x15
    } else if b == 90 {
        0x46
    } else if b == 91 {
        0x57
    } else if b == 92 {
        0xa7
    } else if b == 93 {
        0x8d
    } else if b == 94 {
        0x9d
    } else if b == 95 {
        0x84
    } else if b == 96 {
        0x90
    } else if b == 97 {
        0xd8
    } else if b == 98 {
        0xab
    } else if b == 99 {
        0x00
    } else if b == 100 {
        0x8c
    } else if b == 101 {
        0xbc
    } else if b == 102 {
        0xd3
    } else if b == 103 {
        0x0a
    } else if b == 104 {
        0xf7
    } else if b == 105 {
        0xe4
    } else if b == 106 {
        0x58
    } else if b == 107 {
        0x05
    } else if b == 108 {
        0xb8
    } else if b == 109 {
        0xb3
    } else if b == 110 {
        0x45
    } else if b == 111 {
        0x06
    } else if b == 112 {
        0xd0
    } else if b == 113 {
        0x2c
    } else if b == 114 {
        0x1e
    } else if b == 115 {
        0x8f
    } else if b == 116 {
        0xca
    } else if b == 117 {
        0x3f
    } else if b == 118 {
        0x0f
    } else if b == 119 {
        0x02
    } else if b == 120 {
        0xc1
    } else if b == 121 {
        0xaf
    } else if b == 122 {
        0xbd
    } else if b == 123 {
        0x03
    } else if b == 124 {
        0x01
    } else if b == 125 {
        0x13
    } else if b == 126 {
        0x8a
    } else if b == 127 {
        0x6b
    } else if b == 128 {
        0x3a
    } else if b == 129 {
        0x91
    } else if b == 130 {
        0x11
    } else if b == 131 {
        0x41
    } else if b == 132 {
        0x4f
    } else if b == 133 {
        0x67
    } else if b == 134 {
        0xdc
    } else if b == 135 {
        0xea
    } else if b == 136 {
        0x97
    } else if b == 137 {
        0xf2
    } else if b == 138 {
        0xcf
    } else if b == 139 {
        0xce
    } else if b == 140 {
        0xf0
    } else if b == 141 {
        0xb4
    } else if b == 142 {
        0xe6
    } else if b == 143 {
        0x73
    } else if b == 144 {
        0x96
    } else if b == 145 {
        0xac
    } else if b == 146 {
        0x74
    } else if b == 147 {
        0x22
    } else if b == 148 {
        0xe7
    } else if b == 149 {
        0xad
    } else if b == 150 {
        0x35
    } else if b == 151 {
        0x85
    } else if b == 152 {
        0xe2
    } else if b == 153 {
        0xf9
    } else if b == 154 {
        0x37
    } else if b == 155 {
        0xe8
    } else if b == 156 {
        0x1c
    } else if b == 157 {
        0x75
    } else if b == 158 {
        0xdf
    } else if b == 159 {
        0x6e
    } else if b == 160 {
        0x47
    } else if b == 161 {
        0xf1
    } else if b == 162 {
        0x1a
    } else if b == 163 {
        0x71
    } else if b == 164 {
        0x1d
    } else if b == 165 {
        0x29
    } else if b == 166 {
        0xc5
    } else if b == 167 {
        0x89
    } else if b == 168 {
        0x6f
    } else if b == 169 {
        0xb7
    } else if b == 170 {
        0x62
    } else if b == 171 {
        0x0e
    } else if b == 172 {
        0xaa
    } else if b == 173 {
        0x18
    } else if b == 174 {
        0xbe
    } else if b == 175 {
        0x1b
    } else if b == 176 {
        0xfc
    } else if b == 177 {
        0x56
    } else if b == 178 {
        0x3e
    } else if b == 179 {
        0x4b
    } else if b == 180 {
        0xc6
    } else if b == 181 {
        0xd2
    } else if b == 182 {
        0x79
    } else if b == 183 {
        0x20
    } else if b == 184 {
        0x9a
    } else if b == 185 {
        0xdb
    } else if b == 186 {
        0xc0
    } else if b == 187 {
        0xfe
    } else if b == 188 {
        0x78
    } else if b == 189 {
        0xcd
    } else if b == 190 {
        0x5a
    } else if b == 191 {
        0xf4
    } else if b == 192 {
        0x1f
    } else if b == 193 {
        0xdd
    } else if b == 194 {
        0xa8
    } else if b == 195 {
        0x33
    } else if b == 196 {
        0x88
    } else if b == 197 {
        0x07
    } else if b == 198 {
        0xc7
    } else if b == 199 {
        0x31
    } else if b == 200 {
        0xb1
    } else if b == 201 {
        0x12
    } else if b == 202 {
        0x10
    } else if b == 203 {
        0x59
    } else if b == 204 {
        0x27
    } else if b == 205 {
        0x80
    } else if b == 206 {
        0xec
    } else if b == 207 {
        0x5f
    } else if b == 208 {
        0x60
    } else if b == 209 {
        0x51
    } else if b == 210 {
        0x7f
    } else if b == 211 {
        0xa9
    } else if b == 212 {
        0x19
    } else if b == 213 {
        0xb5
    } else if b == 214 {
        0x4a
    } else if b == 215 {
        0x0d
    } else if b == 216 {
        0x2d
    } else if b == 217 {
        0xe5
    } else if b == 218 {
        0x7a
    } else if b == 219 {
        0x9f
    } else if b == 220 {
        0x93
    } else if b == 221 {
        0xc9
    } else if b == 222 {
        0x9c
    } else if b == 223 {
        0xef
    } else if b == 224 {
        0xa0
    } else if b == 225 {
        0xe0
    } else if b == 226 {
        0x3b
    } else if b == 227 {
        0x4d
    } else if b == 228 {
        0xae
    } else if b == 229 {
        0x2a
    } else if b == 230 {
        0xf5
    } else if b == 231 {
        0xb0
    } else if b == 232 {
        0xc8
    } else if b == 233 {
        0xeb
    } else if b == 234 {
        0xbb
    } else if b == 235 {
        0x3c
    } else if b == 236 {
        0x83
    } else if b == 237 {
        0x53
    } else if b == 238 {
        0x99
    } else if b == 239 {
        0x61
    } else if b == 240 {
        0x17
    } else if b == 241 {
        0x2b
    } else if b == 242 {
        0x04
    } else if b == 243 {
        0x7e
    } else if b == 244 {
        0xba
    } else if b == 245 {
        0x77
    } else if b == 246 {
        0xd6
    } else if b == 247 {
        0x26
    } else if b == 248 {
        0xe1
    } else if b == 249 {
        0x69
    } else if b == 250 {
        0x14
    } else if b == 251 {
        0x63
    } else if b == 252 {
        0x55
    } else if b == 253 {
        0x21
    } else if b == 254 {
        0x0c
    } else {
        0x7d
    }
}

/// The standard AES forward S-box.
pub fn sbox(b: u8) -> (r: u8)
    ensures
        r == spec_sbox(b),
{
    proof {
        reveal(spec_sbox);
    }
    if b == 0 {
        0x63
    } else if b == 1 {
        0x7c
    } else if b == 2 {
        0x77
    } else if b == 3 {
        0x7b
    } else if b == 4 {
        0xf2
    } else if b == 5 {
        0x6b
    } else if b == 6 {
        0x6f
    } else if b == 7 {
        0xc5
    } else if b == 8 {
        0x30
    } else if b == 9 {
        0x01
    } else if b == 10 {
        0x67
    } else if b == 11 {
        0x2b
    } else if b == 12 {
        0xfe
    } else if b == 13 {
        0xd7
    } else if b == 14 {
        0xab
    } else if b == 15 {
        0x76
    } else if b == 16 {
        0xca
    } else if b == 17 {
        0x82
    } else if b == 18 {
        0xc9
    } else if b == 19 {
        0x7d
    } else if b == 20 {
        0xfa
    } else if b == 21 {
        0x59
    } else if b == 22 {
        0x47
    } else if b == 23 {
        0xf0
    } else if b == 24 {
        0xad
    } else if b == 25 {
        0xd4
    } else if b == 26 {
        0xa2
    } else if b == 27 {
        0xaf
    } else if b == 28 {
        0x9c
    } else if b == 29 {
        0xa4
    } else if b == 30 {
        0x72
    } else if b == 31 {
        0xc0
    } else if b == 32 {
        0xb7
    } else if b == 33 {
        0xfd
    } else if b == 34 {
        0x93
    } else if b == 35 {
        0x26
    } else if b == 36 {
        0x36
    } else if b == 37 {
        0x3f
    } else if b == 38 {
        0xf7
    } else if b == 39 {
        0xcc
    } else if b == 40 {
        0x34
    } else if b == 41 {
        0xa5
    } else if b == 42 {
        0xe5
    } else if b == 43 {
        0xf1
    } else if b == 44 {
        0x71
    } else if b == 45 {
        0xd8
    } else if b == 46 {
        0x31
    } else if b == 47 {
        0x15
    } else if b == 48 {
        0x04
    } else if b == 49 {
        0xc7
    } else if b == 50 {
        0x23
    } else if b == 51 {
        0xc3
    } else if b == 52 {
        0x18
    } else if b == 53 {
        0x96
    } else if b == 54 {
        0x05
    } else if b == 55 {
        0x9a
    } else if b == 56 {
        0x07
    } else if b == 57 {
        0x12
    } else if b == 58 {
        0x80
    } else if b == 59 {
        0xe2
    } else if b == 60 {
        0xeb
    } else if b == 61 {
        0x27
    } else if b == 62 {
        0xb2
    } else if b == 63 {
        0x75
    } else if b == 64 {
        0x09
    } else if b == 65 {
        0x83
    } else if b == 66 {
        0x2c
    } else if b == 67 {
        0x1a
    } else if b == 68 {
        0x1b
    } else if b == 69 {
        0x6e
    } else if b == 70 {
        0x5a
    } else if b == 71 {
        0xa0
    } else if b == 72 {
        0x52
    } else if b == 73 {
        0x3b
    } else if b == 74 {
        0xd6
    } else if b == 75 {
        0xb3
    } else if b == 76 {
        0x29
    } else if b == 77 {
        0xe3
    } else if b == 78 {
        0x2f
    } else if b == 79 {
        0x84
    } else if b == 80 {
        0x53
    } else if b == 81 {
        0xd1
    } else if b == 82 {
        0x00
    } else if b == 83 {
        0xed
    } else if b == 84 {
        0x20
    } else if b == 85 {
        0xfc
    } else if b == 86 {
        0xb1
    } else if b == 87 {
        0x5b
    } else if b == 88 {
        0x6a
    } else if b == 89 {
        0xcb
    } else if b == 90 {
        0xbe
    } else if b == 91 {
        0x39
    } else if b == 92 {
        0x4a
    } else if b == 93 {
        0x4c
    } else if b == 94 {
        0x58
    } else if b == 95 {
        0xcf
    } else if b == 96 {
        0xd0
    } else if b == 97 {
        0xef
    } else if b == 98 {
        0xaa
    } else if b == 99 {
        0xfb
    } else if b == 100 {
        0x43
    } else if b == 101 {
        0x4d
    } else if b == 102 {
        0x33
    } else if b == 103 {
        0x85
    } else if b == 104 {
        0x45
    } else if b == 105 {
        0xf9
    } else if b == 106 {
        0x02
    } else if b == 107 {
        0x7f
    } else if b == 108 {
        0x50
    } else if b == 109 {
        0x3c
    } else if b == 110 {
        0x9f
    } else if b == 111 {
        0xa8
    } else if b == 112 {
        0x51
    } else if b == 113 {
        0xa3
    } else if b == 114 {
        0x40
    } else if b == 115 {
        0x8f
    } else if b == 116 {
        0x92
    } else if b == 117 {
        0x9d
    } else if b == 118 {
        0x38
    } else if b == 119 {
        0xf5
    } else if b == 120 {
        0xbc
    } else if b == 121 {
        0xb6
    } else if b == 122 {
        0xda
    } else if b == 123 {
        0x21
    } else if b == 124 {
        0x10
    } else if b == 125 {
        0xff
    } else if b == 126 {
        0xf3
    } else if b == 127 {
        0xd2
    } else if b == 128 {
        0xcd
    } else if b == 129 {
        0x0c
    } else if b == 130 {
        0x13
    } else if b == 131 {
        0xec
    } else if b == 132 {
        0x5f
    } else if b == 133 {
        0x97
    } else if b == 134 {
        0x44
    } else if b == 135 {
        0x17
    } else if b == 136 {
        0xc4
    } else if b == 137 {
        0xa7
    } else if b == 138 {
        0x7e
    } else if b == 139 {
        0x3d
    } else if b == 140 {
        0x64
    } else if b == 141 {
        0x5d
    } else if b == 142 {
        0x19
    } else if b == 143 {
        0x73
    } else if b == 144 {
        0x60
    } else if b == 145 {
        0x81
    } else if b == 146 {
        0x4f
    } else if b == 147 {
        0xdc
    } else if b == 148 {
        0x22
    } else if b == 149 {
        0x2a
    } else if b == 150 {
        0x90
    } else if b == 151 {
        0x88
    } else if b == 152 {
        0x46
    } else if b == 153 {
        0xee
    } else if b == 154 {
        0xb8
    } else if b == 155 {
        0x14
    } else if b == 156 {
        0xde
    } else if b == 157 {
        0x5e
    } else if b == 158 {
        0x0b
    } else if b == 159 {
        0xdb
    } else if b == 160 {
        0xe0
    } else if b == 161 {
        0x32
    } else if b == 162 {
        0x3a
    } else if b == 163 {
        0x0a
    } else if b == 164 {
        0x49
    } else if b == 165 {
        0x06
    } else if b == 166 {
        0x24
    } else if b == 167 {
        0x5c
    } else if b == 168 {
        0xc2
    } else if b == 169 {
        0xd3
    } else if b == 170 {
        0xac
    } else if b == 171 {
        0x62
    } else if b == 172 {
        0x91
    } else if b == 173 {
        0x95
    } else if b == 174 {
        0xe4
    } else if b == 175 {
        0x79
    } else if b == 176 {
        0xe7
    } else if b == 177 {
        0xc8
    } else if b == 178 {
        0x37
    } else if b == 179 {
        0x6d
    } else if b == 180 {
        0x8d
    } else if b == 181 {
        0xd5
    } else if b == 182 {
        0x4e
    } else if b == 183 {
        0xa9
    } else if b == 184 {
        0x6c
    } else if b == 185 {
        0x56
    } else if b == 186 {
        0xf4
    } else if b == 187 {
        0xea
    } else if b == 188 {
        0x65
    } else if b == 189 {
        0x7a
    } else if b == 190 {
        0xae
    } else if b == 191 {
        0x08
    } else if b == 192 {
        0xba
    } else if b == 193 {
        0x78
    } else if b == 194 {
        0x25
    } else if b == 195 {
        0x2e
    } else if b == 196 {
        0x1c
    } else if b == 197 {
        0xa6
    } else if b == 198 {
        0xb4
    } else if b == 199 {
        0xc6
    } else if b == 200 {
        0xe8
    } else if b == 201 {
        0xdd
    } else if b == 202 {
        0x74
    } else if b == 203 {
        0x1f
    } else if b == 204 {
        0x4b
    } else if b == 205 {
        0xbd
    } else if b == 206 {
        0x8b
    } else if b == 207 {
        0x8a
    } else if b == 208 {
        0x70
    } else if b == 209 {
        0x3e
    } else if b == 210 {
        0xb5
    } else if b == 211 {
        0x66
    } else if b == 212 {
        0x48
    } else if b == 213 {
        0x03
    } else if b == 214 {
        0xf6
    } else if b == 215 {
        0x0e
    } else if b == 216 {
        0x61
    } else if b == 217 {
        0x35
    } else if b == 218 {
        0x57
    } else if b == 219 {
        0xb9
    } else if b == 220 {
        0x86
    } else if b == 221 {
        0xc1
    } else if b == 222 {
        0x1d
    } else if b == 223 {
        0x9e
    } else if b == 224 {
        0xe1
    } else if b == 225 {
        0xf8
    } else if b == 226 {
        0x98
    } else if b == 227 {
        0x11
    } else if b == 228 {
        0x69
    } else if b == 229 {
        0xd9
    } else if b == 230 {
        0x8e
    } else if b == 231 {
        0x94
    } else if b == 232 {
        0x9b
    } else if b == 233 {
        0x1e
    } else if b == 234 {
        0x87
    } else if b == 235 {
        0xe9
    } else if b == 236 {
        0xce
    } else if b == 237 {
        0x55
    } else if b == 238 {
        0x28
    } else if b == 239 {
        0xdf
    } else if b == 240 {
        0x8c
    } else if b == 241 {
        0xa1
    } else if b == 242 {
        0x89
    } else if b == 243 {
        0x0d
    } else if b == 244 {
        0xbf
    } else if b == 245 {
        0xe6
    } else if b == 246 {
        0x42
    } else if b == 247 {
        0x68
    } else if b == 248 {
        0x41
    } else if b == 249 {
        0x99
    } else if b == 250 {
        0x2d
    } else if b == 251 {
        0x0f
    } else if b == 252 {
        0xb0
    } else if b == 253 {
        0x54
    } else if b == 254 {
        0xbb
    } else {
        0x16
    }
}

/// The standard AES inverse S-box.
pub fn inv_sbox(b: u8) -> (r: u8)
    ensures
        r == spec_inv_sbox(b),
{
    proof {
        reveal(spec_inv_sbox);
    }
    if b == 0 {
        0x52
    } else if b == 1 {
        0x09
    } else if b == 2 {
        0x6a
    } else if b == 3 {
        0xd5
    } else if b == 4 {
        0x30
    } else if b == 5 {
        0x36
    } else if b == 6 {
        0xa5
    } else if b == 7 {
        0x38
    } else if b == 8 {
        0xbf
    } else if b == 9 {
        0x40
    } else if b == 10 {
        0xa3
    } else if b == 11 {
        0x9e
    } else if b == 12 {
        0x81
    } else if b == 13 {
        0xf3
    } else if b == 14 {
        0xd7
    } else if b == 15 {
        0xfb
    } else if b == 16 {
        0x7c
    } else if b == 17 {
        0xe3
    } else if b == 18 {
        0x39
    } else if b == 19 {
        0x82
    } else if b == 20 {
        0x9b
    } else if b == 21 {
        0x2f
    } else if b == 22 {
        0xff
    } else if b == 23 {
        0x87
    } else if b == 24 {
        0x34
    } else if b == 25 {
        0x8e
    } else if b == 26 {
        0x43
    } else if b == 27 {
        0x44
    } else if b == 28 {
        0xc4
    } else if b == 29 {
        0xde
    } else if b == 30 {
        0xe9
    } else if b == 31 {
        0xcb
    } else if b == 32 {
        0x54
    } else if b == 33 {
        0x7b
    } else if b == 34 {
        0x94
    } else if b == 35 {
        0x32
    } else if b == 36 {
        0xa6
    } else if b == 37 {
        0xc2
    } else if b == 38 {
        0x23
    } else if b == 39 {
        0x3d
    } else if b == 40 {
        0xee
    } else if b == 41 {
        0x4c
    } else if b == 42 {
        0x95
    } else if b == 43 {
        0x0b
    } else if b == 44 {
        0x42
    } else if b == 45 {
        0xfa
    } else if b == 46 {
        0xc3
    } else if b == 47 {
        0x4e
    } else if b == 48 {
        0x08
    } else if b == 49 {
        0x2e
    } else if b == 50 {
        0xa1
    } else if b == 51 {
        0x66
    } else if b == 52 {
        0x28
    } else if b == 53 {
        0xd9
    } else if b == 54 {
        0x24
    } else if b == 55 {
        0xb2
    } else if b == 56 {
        0x76
    } else if b == 57 {
        0x5b
    } else if b == 58 {
        0xa2
    } else if b == 59 {
        0x49
    } else if b == 60 {
        0x6d
    } else if b == 61 {
        0x8b
    } else if b == 62 {
        0xd1
    } else if b == 63 {
        0x25
    } else if b == 64 {
        0x72
    } else if b == 65 {
        0xf8
    } else if b == 66 {
        0xf6
    } else if b == 67 {
        0x64
    } else if b == 68 {
        0x86
    } else if b == 69 {
        0x68
    } else if b == 70 {
        0x98
    } else if b == 71 {
        0x16
    } else if b == 72 {
        0xd4
    } else if b == 73 {
        0xa4
    } else if b == 74 {
        0x5c
    } else if b == 75 {
        0xcc
    } else if b == 76 {
        0x5d
    } else if b == 77 {
        0x65
    } else if b == 78 {
        0xb6
    } else if b == 79 {
        0x92
    } else if b == 80 {
        0x6c
    } else if b == 81 {
        0x70
    } else if b == 82 {
        0x48
    } else if b == 83 {
        0x50
    } else if b == 84 {
        0xfd
    } else if b == 85 {
        0xed
    } else if b == 86 {
        0xb9
    } else if b == 87 {
        0xda
    } else if b == 88 {
        0x5e
    } else if b == 89 {
        0x15
    } else if b == 90 {
        0x46
    } else if b == 91 {
        0x57
    } else if b == 92 {
        0xa7
    } else if b == 93 {
        0x8d
    } else if b == 94 {
        0x9d
    } else if b == 95 {
        0x84
    } else if b == 96 {
        0x90
    } else if b == 97 {
        0xd8
    } else if b == 98 {
        0xab
    } else if b == 99 {
        0x00
    } else if b == 100 {
        0x8c
    } else if b == 101 {
        0xbc
    } else if b == 102 {
        0xd3
    } else if b == 103 {
        0x0a
    } else if b == 104 {
        0xf7
    } else if b == 105 {
        0xe4
    } else if b == 106 {
        0x58
    } else if b == 107 {
        0x05
    } else if b == 108 {
        0xb8
    } else if b == 109 {
        0xb3
    } else if b == 110 {
        0x45
    } else if b == 111 {
        0x06
    } else if b == 112 {
        0xd0
    } else if b == 113 {
        0x2c
    } else if b == 114 {
        0x1e
    } else if b == 115 {
        0x8f
    } else if b == 116 {
        0xca
    } else if b == 117 {
        0x3f
    } else if b == 118 {
        0x0f
    } else if b == 119 {
        0x02
    } else if b == 120 {
        0xc1
    } else if b == 121 {
        0xaf
    } else if b == 122 {
        0xbd
    } else if b == 123 {
        0x03
    } else if b == 124 {
        0x01
    } else if b == 125 {
        0x13
    } else if b == 126 {
        0x8a
    } else if b == 127 {
        0x6b
    } else if b == 128 {
        0x3a
    } else if b == 129 {
        0x91
    } else if b == 130 {
        0x11
    } else if b == 131 {
        0x41
    } else if b == 132 {
        0x4f
    } else if b == 133 {
        0x67
    } else if b == 134 {
        0xdc
    } else if b == 135 {
        0xea
    } else if b == 136 {
        0x97
    } else if b == 137 {
        0xf2
    } else if b == 138 {
        0xcf
    } else if b == 139 {
        0xce
    } else if b == 140 {
        0xf0
    } else if b == 141 {
        0xb4
    } else if b == 142 {
        0xe6
    } else if b == 143 {
        0x73
    } else if b == 144 {
        0x96
    } else if b == 145 {
        0xac
    } else if b == 146 {
        0x74
    } else if b == 147 {
        0x22
    } else if b == 148 {
        0xe7
    } else if b == 149 {
        0xad
    } else if b == 150 {
        0x35
    } else if b == 151 {
        0x85
    } else if b == 152 {
        0xe2
    } else if b == 153 {
        0xf9
    } else if b == 154 {
        0x37
    } else if b == 155 {
        0xe8
    } else if b == 156 {
        0x1c
    } else if b == 157 {
        0x75
    } else if b == 158 {
        0xdf
    } else if b == 159 {
        0x6e
    } else if b == 160 {
        0x47
    } else if b == 161 {
        0xf1
    } else if b == 162 {
        0x1a
    } else if b == 163 {
        0x71
    } else if b == 164 {
        0x1d
    } else if b == 165 {
        0x29
    } else if b == 166 {
        0xc5
    } else if b == 167 {
        0x89
    } else if b == 168 {
        0x6f
    } else if b == 169 {
        0xb7
    } else if b == 170 {
        0x62
    } else if b == 171 {
        0x0e
    } else if b == 172 {
        0xaa
    } else if b == 173 {
        0x18
    } else if b == 174 {
        0xbe
    } else if b == 175 {
        0x1b
    } else if b == 176 {
        0xfc
    } else if b == 177 {
        0x56
    } else if b == 178 {
        0x3e
    } else if b == 179 {
        0x4b
    } else if b == 180 {
        0xc6
    } else if b == 181 {
        0xd2
    } else if b == 182 {
        0x79
    } else if b == 183 {
        0x20
    } else if b == 184 {
        0x9a
    } else if b == 185 {
        0xdb
    } else if b == 186 {
        0xc0
    } else if b == 187 {
        0xfe
    } else if b == 188 {
        0x78
    } else if b == 189 {
        0xcd
    } else if b == 190 {
        0x5a
    } else if b == 191 {
        0xf4
    } else if b == 192 {
        0x1f
    } else if b == 193 {
        0xdd
    } else if b == 194 {
        0xa8
    } else if b == 195 {
        0x33
    } else if b == 196 {
        0x88
    } else if b == 197 {
        0x07
    } else if b == 198 {
        0xc7
    } else if b == 199 {
        0x31
    } else if b == 200 {
        0xb1
    } else if b == 201 {
        0x12
    } else if b == 202 {
        0x10
    } else if b == 203 {
        0x59
    } else if b == 204 {
        0x27
    } else if b == 205 {
        0x80
    } else if b == 206 {
        0xec
    } else if b == 207 {
        0x5f
    } else if b == 208 {
        0x60
    } else if b == 209 {
        0x51
    } else if b == 210 {
        0x7f
    } else if b == 211 {
        0xa9
    } else if b == 212 {
        0x19
    } else if b == 213 {
        0xb5
    } else if b == 214 {
        0x4a
    } else if b == 215 {
        0x0d
    } else if b == 216 {
        0x2d
    } else if b == 217 {
        0xe5
    } else if b == 218 {
        0x7a
    } else if b == 219 {
        0x9f
    } else if b == 220 {
        0x93
    } else if b == 221 {
        0xc9
    } else if b == 222 {
        0x9c
    } else if b == 223 {
        0xef
    } else if b == 224 {
        0xa0
    } else if b == 225 {
        0xe0
    } else if b == 226 {
        0x3b
    } else if b == 227 {
        0x4d
    } else if b == 228 {
        0xae
    } else if b == 229 {
        0x2a
    } else if b == 230 {
        0xf5
    } else if b == 231 {
        0xb0
    } else if b == 232 {
        0xc8
    } else if b == 233 {
        0xeb
    } else if b == 234 {
        0xbb
    } else if b == 235 {
        0x3c
    } else if b == 236 {
        0x83
    } else if b == 237 {
        0x53
    } else if b == 238 {
        0x99
    } else if b == 239 {
        0x61
    } else if b == 240 {
        0x17
    } else if b == 241 {
        0x2b
    } else if b == 242 {
        0x04
    } else if b == 243 {
        0x7e
    } else if b == 244 {
        0xba
    } else if b == 245 {
        0x77
    } else if b == 246 {
        0xd6
    } else if b == 247 {
        0x26
    } else if b == 248 {
        0xe1
    } else if b == 249 {
        0x69
    } else if b == 250 {
        0x14
    } else if b == 251 {
        0x63
    } else if b == 252 {
        0x55
    } else if b == 253 {
        0x21
    } else if b == 254 {
        0x0c
    } else {
        0x7d
    }
}

/// The inverse S-box undoes the S-box on every byte.
pub proof fn lemma_sbox_inverse(b: u8)
    ensures
        spec_inv_sbox(spec_sbox(b)) == b,
{
    reveal(spec_sbox);
    reveal(spec_inv_sbox);
}

/// Multiplication by 2 in GF(2^8) modulo the AES polynomial 0x11B.
pub open spec fn spec_gal2(b: u8) -> u8 {
    (b << 1) ^ (((b >> 7) * 0x1b) as u8)
}

/// Multiplication by 3 in GF(2^8): x * 3 = x * 2 + x.
pub open spec fn spec_gal3(b: u8) -> u8 {
    spec_gal2(b) ^ b
}

/// Multiplication by 9 in GF(2^8): x * 9 = x * 8 + x.
pub open spec fn spec_gal9(b: u8) -> u8 {
    spec_gal2(spec_gal2(spec_gal2(b))) ^ b
}

/// Multiplication by 11 in GF(2^8): x * 11 = x * 8 + x * 2 + x.
pub open spec fn spec_gal11(b: u8) -> u8 {
    spec_gal2(spec_gal2(spec_gal2(b))) ^ spec_gal2(b) ^ b
}

/// Multiplication by 13 in GF(2^8): x * 13 = x * 8 + x * 4 + x.
pub open spec fn spec_gal13(b: u8) -> u8 {
    spec_gal2(spec_gal2(spec_gal2(b))) ^ spec_gal2(spec_gal2(b)) ^ b
}

/// Multiplication by 14 in GF(2^8): x * 14 = x * 8 + x * 4 + x * 2.
pub open spec fn spec_gal14(b: u8) -> u8 {
    spec_gal2(spec_gal2(spec_gal2(b))) ^ spec_gal2(spec_gal2(b)) ^ spec_gal2(b)
}

/// Multiplication by 2 in GF(2^8) modulo 0x11B.
pub fn gal2(b: u8) -> (r: u8)
    ensures
        r == spec_gal2(b),
{
    let hi: u8 = b >> 7u8;
    proof {
        assert(b >> 7u8 <= 1) by (bit_vector);
    }
    (b << 1u8) ^ (hi * 0x1b)
}

/// Multiplication by 3 in GF(2^8) modulo 0x11B.
pub fn gal3(b: u8) -> (r: u8)
    ensures
        r == spec_gal3(b),
{
    gal2(b) ^ b
}

/// Multiplication by 9 in GF(2^8) modulo 0x11B.
pub fn gal9(b: u8) -> (r: u8)
    ensures
        r == spec_gal9(b),
{
    gal2(gal2(gal2(b))) ^ b
}

/// Multiplication by 11 in GF(2^8) modulo 0x11B.
pub fn gal11(b: u8) -> (r: u8)
    ensures
        r == spec_gal11(b),
{
    gal2(gal2(gal2(b))) ^ gal2(b) ^ b
}

/// Multiplication by 13 in GF(2^8) modulo 0x11B.
pub fn gal13(b: u8) -> (r: u8)
    ensures
        r == spec_gal13(b),
{
    gal2(gal2(gal2(b))) ^ gal2(gal2(b)) ^ b
}

/// Multiplication by 14 in GF(2^8) modulo 0x11B.
pub fn gal14(b: u8) -> (r: u8)
    ensures
        r == spec_gal14(b),
{
    gal2(gal2(gal2(b))) ^ gal2(gal2(b)) ^ gal2(b)
}

/// Multiplying by 2 and adding the input once is multiplying by 3.
pub proof fn lemma_gal2_xor_is_gal3(b: u8)
    ensures
        spec_gal2(b) ^ b == spec_gal3(b),
{
}

/// XOR of a 16-byte round key into a 16-byte state, element by element.
#[verifier::opaque]
pub open spec fn spec_add_round_key(s: Seq<u8>, k: Seq<u8>) -> Seq<u8> {
    Seq::new(16, |i: int| s[i] ^ k[i])
}

/// The forward S-box applied to every byte of a 16-byte state.
#[verifier::opaque]
pub open spec fn spec_sub_bytes(s: Seq<u8>) -> Seq<u8> {
    Seq::new(16, |i: int| spec_sbox(s[i]))
}

/// The inverse S-box applied to every byte of a 16-byte state.
#[verifier::opaque]
pub open spec fn spec_sub_bytes_inv(s: Seq<u8>) -> Seq<u8> {
    Seq::new(16, |i: int| spec_inv_sbox(s[i]))
}

/// ShiftRows on the column-major layout: row `r` is rotated left by `r`,
/// so the byte at `r + 4 * c` comes from `r + 4 * ((c + r) % 4)`.
#[verifier::opaque]
pub open spec fn spec_shift_rows(s: Seq<u8>) -> Seq<u8> {
    seq![
        s[0], s[5], s[10], s[15],
        s[4], s[9], s[14], s[3],
        s[8], s[13], s[2], s[7],
        s[12], s[1], s[6], s[11],
    ]
}

/// Inverse ShiftRows: row `r` is rotated right by `r`.
#[verifier::opaque]
pub open spec fn spec_shift_rows_inv(s: Seq<u8>) -> Seq<u8> {
    seq![
        s[0], s[13], s[10], s[7],
        s[4], s[1], s[14], s[11],
        s[8], s[5], s[2], s[15],
        s[12], s[9], s[6], s[3],
    ]
}

/// Row 0 of MixColumns applied to one column: 2*a0 + 3*a1 + a2 + a3.
#[verifier::opaque]
pub open spec fn spec_mix0(a0: u8, a1: u8, a2: u8, a3: u8) -> u8 {
    spec_gal2(a0) ^ spec_gal3(a1) ^ a2 ^ a3
}

/// Row 1 of MixColumns applied to one column: a0 + 2*a1 + 3*a2 + a3.
#[verifier::opaque]
pub open spec fn spec_mix1(a0: u8, a1: u8, a2: u8, a3: u8) -> u8 {
    a0 ^ spec_gal2(a1) ^ spec_gal3(a2) ^ a3
}

/// Row 2 of MixColumns applied to one column: a0 + a1 + 2*a2 + 3*a3.
#[verifier::opaque]
pub open spec fn spec_mix2(a0: u8, a1: u8, a2: u8, a3: u8) -> u8 {
    a0 ^ a1 ^ spec_gal2(a2) ^ spec_gal3(a3)
}

/// Row 3 of MixColumns applied to one column: 3*a0 + a1 + a2 + 2*a3.
#[verifier::opaque]
pub open spec fn spec_mix3(a0: u8, a1: u8, a2: u8, a3: u8) -> u8 {
    spec_gal3(a0) ^ a1 ^ a2 ^ spec_gal2(a3)
}

/// Row 0 of the inverse MixColumns: 14*a0 + 11*a1 + 13*a2 + 9*a3.
#[verifier::opaque]
pub open spec fn spec_mix_inv0(a0: u8, a1: u8, a2: u8, a3: u8) -> u8 {
    spec_gal14(a0) ^ spec_gal11(a1) ^ spec_gal13(a2) ^ spec_gal9(a3)
}

/// Row 1 of the inverse MixColumns: 9*a0 + 14*a1 + 11*a2 + 13*a3.
#[verifier::opaque]
pub open spec fn spec_mix_inv1(a0: u8, a1: u8, a2: u8, a3: u8) -> u8 {
    spec_gal9(a0) ^ spec_gal14(a1) ^ spec_gal11(a2) ^ spec_gal13(a3)
}

/// Row 2 of the inverse MixColumns: 13*a0 + 9*a1 + 14*a2 + 11*a3.
#[verifier::opaque]
pub open spec fn spec_mix_inv2(a0: u8, a1: u8, a2: u8, a3: u8) -> u8 {
    spec_gal13(a0) ^ spec_gal9(a1) ^ spec_gal14(a2) ^ spec_gal11(a3)
}

/// Row 3 of the inverse MixColumns: 11*a0 + 13*a1 + 9*a2 + 14*a3.
#[verifier::opaque]
pub open spec fn spec_mix_inv3(a0: u8, a1: u8, a2: u8, a3: u8) -> u8 {
    spec_gal11(a0) ^ spec_gal13(a1) ^ spec_gal9(a2) ^ spec_gal14(a3)
}

/// MixColumns over the four columns of a column-major 16-byte state.
#[verifier::opaque]
pub open spec fn spec_mix_columns(s: Seq<u8>) -> Seq<u8> {
    seq![
        spec_mix0(s[0], s[1], s[2], s[3]),
        spec_mix1(s[0], s[1], s[2], s[3]),
        spec_mix2(s[0], s[1], s[2], s[3]),
        spec_mix3(s[0], s[1], s[2], s[3]),
        spec_mix0(s[4], s[5], s[6], s[7]),
        spec_mix1(s[4], s[5], s[6], s[7]),
        spec_mix2(s[4], s[5], s[6], s[7]),
        spec_mix3(s[4], s[5], s[6], s[7]),
        spec_mix0(s[8], s[9], s[10], s[11]),
        spec_mix1(s[8], s[9], s[10], s[11]),
        spec_mix2(s[8], s[9], s[10], s[11]),
        spec_mix3(s[8], s[9], s[10], s[11]),
        spec_mix0(s[12], s[13], s[14], s[15]),
        spec_mix1(s[12], s[13], s[14], s[15]),
        spec_mix2(s[12], s[13], s[14], s[15]),
        spec_mix3(s[12], s[13], s[14], s[15]),
    ]
}

/// Inverse MixColumns over the four columns of a column-major 16-byte state.
#[verifier::opaque]
pub open spec fn spec_mix_columns_inv(s: Seq<u8>) -> Seq<u8> {
    seq![
        spec_mix_inv0(s[0], s[1], s[2], s[3]),
        spec_mix_inv1(s[0], s[1], s[2], s[3]),
        spec_mix_inv2(s[0], s[1], s[2], s[3]),
        spec_mix_inv3(s[0], s[1], s[2], s[3]),
        spec_mix_inv0(s[4], s[5], s[6], s[7]),
        spec_mix_inv1(s[4], s[5], s[6], s[7]),
        spec_mix_inv2(s[4], s[5], s[6], s[7]),
        spec_mix_inv3(s[4], s[5], s[6], s[7]),
        spec_mix_inv0(s[8], s[9], s[10], s[11]),
        spec_mix_inv1(s[8], s[9], s[10], s[11]),
        spec_mix_inv2(s[8], s[9], s[10], s[11]),
        spec_mix_inv3(s[8], s[9], s[10], s[11]),
        spec_mix_inv0(s[12], s[13], s[14], s[15]),
        spec_mix_inv1(s[12], s[13], s[14], s[15]),
        spec_mix_inv2(s[12], s[13], s[14], s[15]),
        spec_mix_inv3(s[12], s[13], s[14], s[15]),
    ]
}

/// A 16-byte AES state in column-major layout.
pub struct AesState {
    pub data: [u8; 16],
}

impl AesState {
    /// Copies a 16-byte block into a fresh state.
    pub fn new(payload: &[u8; 16]) -> (r: AesState)
        ensures
            r.data@ == payload@,
    {
        AesState { data: *payload }
    }

    /// XORs a 16-byte round key into the state.
    pub fn add_round_key(&mut self, k: &[u8; 16])
        ensures
            final(self).data@ == spec_add_round_key(old(self).data@, k@),
    {
        for i in 0..16usize
            invariant
                forall|j: int| 0 <= j < i ==> self.data@[j] == (old(self).data@[j] ^ k@[j]),
                forall|j: int| i <= j < 16 ==> self.data@[j] == old(self).data@[j],
        {
        proof {

        }
            self.data[i] = self.data[i] ^ k[i];
        }
        proof { reveal(spec_add_round_key); }
        assert(self.data@ =~= spec_add_round_key(old(self).data@, k@));
    }

    /// Applies the forward S-box to every byte.
    pub fn sub_bytes(&mut self)
        ensures
            final(self).data@ == spec_sub_bytes(old(self).data@),
    {
        for i in 0..16usize
            invariant
                forall|j: int| 0 <= j < i ==> self.data@[j] == spec_sbox(old(self).data@[j]),
                forall|j: int| i <= j < 16 ==> self.data@[j] == old(self).data@[j],
        {
            self.data[i] = sbox(self.data[i]);
        }
        proof { reveal(spec_sub_bytes); }
        assert(self.data@ =~= spec_sub_bytes(old(self).data@));
    }

    /// Applies the inverse S-box to every byte.
    pub fn sub_bytes_inv(&mut self)
        ensures
            final(self).data@ == spec_sub_bytes_inv(old(self).data@),
    {
        for i in 0..16usize
            invariant
                forall|j: int| 0 <= j < i ==> self.data@[j] == spec_inv_sbox(old(self).data@[j]),
                forall|j: int| i <= j < 16 ==> self.data@[j] == old(self).data@[j],
        {
            self.data[i] = inv_sbox(self.data[i]);
        }
        proof { reveal(spec_sub_bytes_inv); }
        assert(self.data@ =~= spec_sub_bytes_inv(old(self).data@));
    }

    /// Rotates row `r` left by `r` positions.
    pub fn shift_rows(&mut self)
        ensures
            final(self).data@ == spec_shift_rows(old(self).data@),
    {
        let d = self.data;
        self.data = [
            d[0], d[5], d[10], d[15],
            d[4], d[9], d[14], d[3],
            d[8], d[13], d[2], d[7],
            d[12], d[1], d[6], d[11],
        ];
        proof { reveal(spec_shift_rows); }
        assert(self.data@ =~= spec_shift_rows(old(self).data@));
    }

    /// Rotates row `r` right by `r` positions.
    pub fn shift_rows_inv(&mut self)
        ensures
            final(self).data@ == spec_shift_rows_inv(old(self).data@),
    {
        let d = self.data;
        self.data = [
            d[0], d[13], d[10], d[7],
            d[4], d[1], d[14], d[11],
            d[8], d[5], d[2], d[15],
            d[12], d[9], d[6], d[3],
        ];
        proof { reveal(spec_shift_rows_inv); }
        assert(self.data@ =~= spec_shift_rows_inv(old(self).data@));
    }

    /// Standard AES column mixing in GF(2^8) with polynomial 0x11B.
    pub fn mix_columns(&mut self)
        ensures
            final(self).data@ == spec_mix_columns(old(self).data@),
    {
        let d = self.data;
        self.data = [
            gal2(d[0]) ^ gal3(d[1]) ^ d[2] ^ d[3],
            d[0] ^ gal2(d[1]) ^ gal3(d[2]) ^ d[3],
            d[0] ^ d[1] ^ gal2(d[2]) ^ gal3(d[3]),
            gal3(d[0]) ^ d[1] ^ d[2] ^ gal2(d[3]),
            gal2(d[4]) ^ gal3(d[5]) ^ d[6] ^ d[7],
            d[4] ^ gal2(d[5]) ^ gal3(d[6]) ^ d[7],
            d[4] ^ d[5] ^ gal2(d[6]) ^ gal3(d[7]),
            gal3(d[4]) ^ d[5] ^ d[6] ^ gal2(d[7]),
            gal2(d[8]) ^ gal3(d[9]) ^ d[10] ^ d[11],
            d[8] ^ gal2(d[9]) ^ gal3(d[10]) ^ d[11],
            d[8] ^ d[9] ^ gal2(d[10]) ^ gal3(d[11]),
            gal3(d[8]) ^ d[9] ^ d[10] ^ gal2(d[11]),
            gal2(d[12]) ^ gal3(d[13]) ^ d[14] ^ d[15],
            d[12] ^ gal2(d[13]) ^ gal3(d[14]) ^ d[15],
            d[12] ^ d[13] ^ gal2(d[14]) ^ gal3(d[15]),
            gal3(d[12]) ^ d[13] ^ d[14] ^ gal2(d[15]),
        ];
        proof { reveal(spec_mix_columns); reveal(spec_mix0); reveal(spec_mix1); reveal(spec_mix2); reveal(spec_mix3); }
        assert(self.data@ =~= spec_mix_columns(old(self).data@));
    }

    /// Inverse of the AES column mixing.
    pub fn mix_columns_inv(&mut self)
        ensures
            final(self).data@ == spec_mix_columns_inv(old(self).data@),
    {
        let d = self.data;
        self.data = [
            gal14(d[0]) ^ gal11(d[1]) ^ gal13(d[2]) ^ gal9(d[3]),
            gal9(d[0]) ^ gal14(d[1]) ^ gal11(d[2]) ^ gal13(d[3]),
            gal13(d[0]) ^ gal9(d[1]) ^ gal14(d[2]) ^ gal11(d[3]),
            gal11(d[0]) ^ gal13(d[1]) ^ gal9(d[2]) ^ gal14(d[3]),
            gal14(d[4]) ^ gal11(d[5]) ^ gal13(d[6]) ^ gal9(d[7]),
            gal9(d[4]) ^ gal14(d[5]) ^ gal11(d[6]) ^ gal13(d[7]),
            gal13(d[4]) ^ gal9(d[5]) ^ gal14(d[6]) ^ gal11(d[7]),
            gal11(d[4]) ^ gal13(d[5]) ^ gal9(d[6]) ^ gal14(d[7]),
            gal14(d[8]) ^ gal11(d[9]) ^ gal13(d[10]) ^ gal9(d[11]),
            gal9(d[8]) ^ gal14(d[9]) ^ gal11(d[10]) ^ gal13(d[11]),
            gal13(d[8]) ^ gal9(d[9]) ^ gal14(d[10]) ^ gal11(d[11]),
            gal11(d[8]) ^ gal13(d[9]) ^ gal9(d[10]) ^ gal14(d[11]),
            gal14(d[12]) ^ gal11(d[13]) ^ gal13(d[14]) ^ gal9(d[15]),
            gal9(d[12]) ^ gal14(d[13]) ^ gal11(d[14]) ^ gal13(d[15]),
            gal13(d[12]) ^ gal9(d[13]) ^ gal14(d[14]) ^ gal11(d[15]),
            gal11(d[12]) ^ gal13(d[13]) ^ gal9(d[14]) ^ gal14(d[15]),
        ];
        proof { reveal(spec_mix_columns_inv); reveal(spec_mix_inv0); reveal(spec_mix_inv1); reveal(spec_mix_inv2); reveal(spec_mix_inv3); }
        assert(self.data@ =~= spec_mix_columns_inv(old(self).data@));
    }
}

/// Inverse MixColumns undoes MixColumns on a single column.
#[verifier::rlimit(100)]
proof fn lemma_mix_column_round_trip(a0: u8, a1: u8, a2: u8, a3: u8)
    by (bit_vector)
    ensures
        spec_mix_inv0(
            spec_mix0(a0, a1, a2, a3),
            spec_mix1(a0, a1, a2, a3),
            spec_mix2(a0, a1, a2, a3),
            spec_mix3(a0, a1, a2, a3),
        ) == a0,
        spec_mix_inv1(
            spec_mix0(a0, a1, a2, a3),
            spec_mix1(a0, a1, a2, a3),
            spec_mix2(a0, a1, a2, a3),
            spec_mix3(a0, a1, a2, a3),
        ) == a1,
        spec_mix_inv2(
            spec_mix0(a0, a1, a2, a3),
            spec_mix1(a0, a1, a2, a3),
            spec_mix2(a0, a1, a2, a3),
            spec_mix3(a0, a1, a2, a3),
        ) == a2,
        spec_mix_inv3(
            spec_mix0(a0, a1, a2, a3),
            spec_mix1(a0, a1, a2, a3),
            spec_mix2(a0, a1, a2, a3),
            spec_mix3(a0, a1, a2, a3),
        ) == a3,
{
}

/// Applying the inverse S-box after the S-box leaves a 16-byte state unchanged.
pub proof fn lemma_sub_bytes_round_trip(s: Seq<u8>)
    requires
        s.len() == 16,
    ensures
        spec_sub_bytes_inv(spec_sub_bytes(s)) == s,
{
    reveal(spec_sub_bytes);
    reveal(spec_sub_bytes_inv);
    assert forall|i: int| 0 <= i < 16 implies spec_sub_bytes_inv(spec_sub_bytes(s))[i] == s[i] by {
        lemma_sbox_inverse(s[i]);
    }
    assert(spec_sub_bytes_inv(spec_sub_bytes(s)) =~= s);
}

/// Rotating each row back right undoes ShiftRows on a 16-byte state.
pub proof fn lemma_shift_rows_round_trip(s: Seq<u8>)
    requires
        s.len() == 16,
    ensures
        spec_shift_rows_inv(spec_shift_rows(s)) == s,
{
    reveal(spec_shift_rows);
    reveal(spec_shift_rows_inv);
    assert(spec_shift_rows_inv(spec_shift_rows(s)) =~= s);
}

/// Inverse MixColumns undoes MixColumns on a 16-byte state.
#[verifier::rlimit(100)]
pub proof fn lemma_mix_columns_round_trip(s: Seq<u8>)
    requires
        s.len() == 16,
    ensures
        spec_mix_columns_inv(spec_mix_columns(s)) == s,
{
    reveal(spec_mix_columns);
    reveal(spec_mix_columns_inv);
    lemma_mix_column_round_trip(s[0], s[1], s[2], s[3]);
    lemma_mix_column_round_trip(s[4], s[5], s[6], s[7]);
    lemma_mix_column_round_trip(s[8], s[9], s[10], s[11]);
    lemma_mix_column_round_trip(s[12], s[13], s[14], s[15]);
    assert(spec_mix_columns_inv(spec_mix_columns(s)) =~= s);
}

/// The sequence-of-bytes view of a sequence of 16-byte blocks.
pub open spec fn blocks_view(v: Seq<[u8; 16]>) -> Seq<Seq<u8>> {
    Seq::new(v.len(), |i: int| v[i]@)
}

/// One step of the AES-128 key schedule: derives round key `r + 1` from
/// round key `r` and the round constant for step `r + 1`.
#[verifier::opaque]
pub open spec fn spec_next_round_key(k: Seq<u8>, rcon: u8) -> Seq<u8> {
    let b0 = k[0] ^ spec_sbox(k[13]) ^ rcon;
    let b1 = k[1] ^ spec_sbox(k[14]);
    let b2 = k[2] ^ spec_sbox(k[15]);
    let b3 = k[3] ^ spec_sbox(k[12]);
    let b4 = k[4] ^ b0;
    let b5 = k[5] ^ b1;
    let b6 = k[6] ^ b2;
    let b7 = k[7] ^ b3;
    let b8 = k[8] ^ b4;
    let b9 = k[9] ^ b5;
    let b10 = k[10] ^ b6;
    let b11 = k[11] ^ b7;
    let b12 = k[12] ^ b8;
    let b13 = k[13] ^ b9;
    let b14 = k[14] ^ b10;
    let b15 = k[15] ^ b11;
    seq![b0, b1, b2, b3, b4, b5, b6, b7, b8, b9, b10, b11, b12, b13, b14, b15]
}

/// The eleven AES-128 round keys derived from a 16-byte cipher key.
pub open spec fn spec_round_keys(key: Seq<u8>) -> Seq<Seq<u8>> {
    let k0 = key;
    let k1 = spec_next_round_key(k0, 0x01);
    let k2 = spec_next_round_key(k1, 0x02);
    let k3 = spec_next_round_key(k2, 0x04);
    let k4 = spec_next_round_key(k3, 0x08);
    let k5 = spec_next_round_key(k4, 0x10);
    let k6 = spec_next_round_key(k5, 0x20);
    let k7 = spec_next_round_key(k6, 0x40);
    let k8 = spec_next_round_key(k7, 0x80);
    let k9 = spec_next_round_key(k8, 0x1b);
    let k10 = spec_next_round_key(k9, 0x36);
    seq![k0, k1, k2, k3, k4, k5, k6, k7, k8, k9, k10]
}

/// One step of the AES-128 key schedule.
pub fn next_round_key(k: &[u8; 16], rcon: u8) -> (r: [u8; 16])
    ensures
        r@ == spec_next_round_key(k@, rcon),
{
    let b0 = k[0] ^ sbox(k[13]) ^ rcon;
    let b1 = k[1] ^ sbox(k[14]);
    let b2 = k[2] ^ sbox(k[15]);
    let b3 = k[3] ^ sbox(k[12]);
    let b4 = k[4] ^ b0;
    let b5 = k[5] ^ b1;
    let b6 = k[6] ^ b2;
    let b7 = k[7] ^ b3;
    let b8 = k[8] ^ b4;
    let b9 = k[9] ^ b5;
    let b10 = k[10] ^ b6;
    let b11 = k[11] ^ b7;
    let b12 = k[12] ^ b8;
    let b13 = k[13] ^ b9;
    let b14 = k[14] ^ b10;
    let b15 = k[15] ^ b11;
    let r: [u8; 16] = [b0, b1, b2, b3, b4, b5, b6, b7, b8, b9, b10, b11, b12, b13, b14, b15];
    proof { reveal(spec_next_round_key); }
        assert(r@ =~= spec_next_round_key(k@, rcon));
    r
}

/// Expands a 16-byte AES-128 cipher key into its eleven round keys.
#[verifier::rlimit(100)]
pub fn expand_key(key: &[u8; 16]) -> (ks: Vec<[u8; 16]>)
    ensures
        ks@.len() == 11,
        blocks_view(ks@) == spec_round_keys(key@),
{
    let k0: [u8; 16] = *key;
    let k1 = next_round_key(&k0, 0x01);
    let k2 = next_round_key(&k1, 0x02);
    let k3 = next_round_key(&k2, 0x04);
    let k4 = next_round_key(&k3, 0x08);
    let k5 = next_round_key(&k4, 0x10);
    let k6 = next_round_key(&k5, 0x20);
    let k7 = next_round_key(&k6, 0x40);
    let k8 = next_round_key(&k7, 0x80);
    let k9 = next_round_key(&k8, 0x1b);
    let k10 = next_round_key(&k9, 0x36);
    let mut ks: Vec<[u8; 16]> = Vec::new();
    ks.push(k0);
    ks.push(k1);
    ks.push(k2);
    ks.push(k3);
    ks.push(k4);
    ks.push(k5);
    ks.push(k6);
    ks.push(k7);
    ks.push(k8);
    ks.push(k9);
    ks.push(k10);
    assert(blocks_view(ks@) =~= spec_round_keys(key@));
    ks
}

/// The four states a middle AES round emits, in order: after SubBytes, after
/// ShiftRows, after MixColumns, after AddRoundKey.
pub open spec fn spec_round_states(s: Seq<u8>, rk: Seq<u8>) -> Seq<Seq<u8>> {
    let sb = spec_sub_bytes(s);
    let sr = spec_shift_rows(sb);
    let mc = spec_mix_columns(sr);
    let ak = spec_add_round_key(mc, rk);
    seq![sb, sr, mc, ak]
}

/// The state a middle AES round hands to the next round.
pub open spec fn spec_round_out(s: Seq<u8>, rk: Seq<u8>) -> Seq<u8> {
    spec_add_round_key(spec_mix_columns(spec_shift_rows(spec_sub_bytes(s))), rk)
}

/// All forty intermediate states of one AES-128 encryption of `p` under
/// `key`: the initial AddRoundKey output, then four states for each of the
/// nine middle rounds, then the three states of the final round.
pub open spec fn spec_states_for_key(p: Seq<u8>, key: Seq<u8>) -> Seq<Seq<u8>> {
    let rks = spec_round_keys(key);
    let s0 = spec_add_round_key(p, rks[0]);
    let s1 = spec_round_out(s0, rks[1]);
    let s2 = spec_round_out(s1, rks[2]);
    let s3 = spec_round_out(s2, rks[3]);
    let s4 = spec_round_out(s3, rks[4]);
    let s5 = spec_round_out(s4, rks[5]);
    let s6 = spec_round_out(s5, rks[6]);
    let s7 = spec_round_out(s6, rks[7]);
    let s8 = spec_round_out(s7, rks[8]);
    let s9 = spec_round_out(s8, rks[9]);
    let fb = spec_sub_bytes(s9);
    let fr = spec_shift_rows(fb);
    let fk = spec_add_round_key(fr, rks[10]);
    seq![s0] + spec_round_states(s0, rks[1]) + spec_round_states(s1, rks[2])
        + spec_round_states(s2, rks[3]) + spec_round_states(s3, rks[4]) + spec_round_states(
        s4,
        rks[5],
    ) + spec_round_states(s5, rks[6]) + spec_round_states(s6, rks[7]) + spec_round_states(
        s7,
        rks[8],
    ) + spec_round_states(s8, rks[9]) + seq![fb, fr, fk]
}

/// The concatenated intermediate states of encrypting `p` under each key of
/// `ks`, in key order.
pub open spec fn spec_all_states(p: Seq<u8>, ks: Seq<Seq<u8>>) -> Seq<Seq<u8>>
    decreases ks.len(),
{
    if ks.len() == 0 {
        Seq::empty()
    } else {
        spec_all_states(p, ks.drop_last()) + spec_states_for_key(p, ks.last())
    }
}

/// Each key contributes exactly forty states.
pub proof fn lemma_states_for_key_len(p: Seq<u8>, key: Seq<u8>)
    ensures
        spec_states_for_key(p, key).len() == 40,
{
}

/// The assessment state list has a stable length of forty states per key.
pub proof fn lemma_all_states_len(p: Seq<u8>, ks: Seq<Seq<u8>>)
    ensures
        spec_all_states(p, ks).len() == 40 * ks.len(),
    decreases ks.len(),
{
    if ks.len() > 0 {
        lemma_all_states_len(p, ks.drop_last());
        lemma_states_for_key_len(p, ks.last());
    }
}

/// Appends the forty intermediate states of one encryption to `out`.
fn push_states_for_key(payload: &[u8; 16], key: &[u8; 16], out: &mut Vec<[u8; 16]>)
    ensures
        final(out)@.len() == old(out)@.len() + 40,
        blocks_view(final(out)@) == blocks_view(old(out)@) + spec_states_for_key(payload@, key@),
{
    let rks = expand_key(key);
    let mut st = AesState::new(payload);
    st.add_round_key(&rks[0]);
    out.push(st.data);
    st.sub_bytes();
    out.push(st.data);
    st.shift_rows();
    out.push(st.data);
    st.mix_columns();
    out.push(st.data);
    st.add_round_key(&rks[1]);
    out.push(st.data);
    st.sub_bytes();
    out.push(st.data);
    st.shift_rows();
    out.push(st.data);
    st.mix_columns();
    out.push(st.data);
    st.add_round_key(&rks[2]);
    out.push(st.data);
    st.sub_bytes();
    out.push(st.data);
    st.shift_rows();
    out.push(st.data);
    st.mix_columns();
    out.push(st.data);
    st.add_round_key(&rks[3]);
    out.push(st.data);
    st.sub_bytes();
    out.push(st.data);
    st.shift_rows();
    out.push(st.data);
    st.mix_columns();
    out.push(st.data);
    st.add_round_key(&rks[4]);
    out.push(st.data);
    st.sub_bytes();
    out.push(st.data);
    st.shift_rows();
    out.push(st.data);
    st.mix_columns();
    out.push(st.data);
    st.add_round_key(&rks[5]);
    out.push(st.data);
    st.sub_bytes();
    out.push(st.data);
    st.shift_rows();
    out.push(st.data);
    st.mix_columns();
    out.push(st.data);
    st.add_round_key(&rks[6]);
    out.push(st.data);
    st.sub_bytes();
    out.push(st.data);
    st.shift_rows();
    out.push(st.data);
    st.mix_columns();
    out.push(st.data);
    st.add_round_key(&rks[7]);
    out.push(st.data);
    st.sub_bytes();
    out.push(st.data);
    st.shift_rows();
    out.push(st.data);
    st.mix_columns();
    out.push(st.data);
    st.add_round_key(&rks[8]);
    out.push(st.data);
    st.sub_bytes();
    out.push(st.data);
    st.shift_rows();
    out.push(st.data);
    st.mix_columns();
    out.push(st.data);
    st.add_round_key(&rks[9]);
    out.push(st.data);
    st.sub_bytes();
    out.push(st.data);
    st.shift_rows();
    out.push(st.data);
    st.add_round_key(&rks[10]);
    out.push(st.data);
    assert(blocks_view(out@) =~= blocks_view(old(out)@) + spec_states_for_key(payload@, key@));
}

/// For each provided key, runs a full AES-128 encryption of `payload` and
/// emits every intermediate state, forty per key, in key order.
pub fn compute_all_states(payload: &[u8; 16], keys: &Vec<[u8; 16]>) -> (v: Vec<[u8; 16]>)
    ensures
        v@.len() == 40 * keys@.len(),
        blocks_view(v@) == spec_all_states(payload@, blocks_view(keys@)),
{
    let mut v: Vec<[u8; 16]> = Vec::new();
    assert(blocks_view(v@) =~= spec_all_states(payload@, blocks_view(keys@).take(0)));
    for i in 0..keys.len()
        invariant
            v@.len() == 40 * i,
            blocks_view(v@) == spec_all_states(payload@, blocks_view(keys@).take(i as int)),
    {
        push_states_for_key(payload, &keys[i], &mut v);
        proof {
            let kv = blocks_view(keys@);
            assert(kv.take(i + 1).drop_last() =~= kv.take(i as int));
            assert(kv.take(i + 1).last() == kv[i as int]);
            assert(blocks_view(v@) == spec_all_states(payload@, kv.take(i + 1)));
        }
    }
    proof {
        assert(blocks_view(keys@).take(keys@.len() as int) =~= blocks_view(keys@));
        lemma_all_states_len(payload@, blocks_view(keys@));
    }
    v
}

} // verus!
